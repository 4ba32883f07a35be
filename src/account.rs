use vstd::prelude::*;

verus! {

/// The two address mappings an identity is built with: from an Ethereum
/// address to the substrate account that stands for it, and back.
pub trait Config {
    /// The substrate account that stands for an Ethereum address.
    spec fn into_account_id_spec(address: [u8; 20]) -> [u8; 32];

    /// The Ethereum address that stands for a substrate account.
    spec fn from_account_id_spec(account: [u8; 32]) -> [u8; 20];

    fn into_account_id(address: [u8; 20]) -> (r: [u8; 32])
        ensures
            r == Self::into_account_id_spec(address),
    ;

    fn from_account_id(account: [u8; 32]) -> (r: [u8; 20])
        ensures
            r == Self::from_account_id_spec(account),
    ;
}

/// The outward form of an identity: the one id it was built from.
#[derive(Clone, Copy, Debug, PartialEq, Eq)]
pub enum BasicCrossAccountIdRepr {
    Substrate([u8; 32]),
    Ethereum([u8; 20]),
}

/// An account known in two spaces: by a 32-byte substrate id and by a 20-byte
/// Ethereum address. One of the two is canonical, the one it was built from;
/// the other is derived from it once, at construction.
#[derive(Clone, Copy, Debug, PartialEq, Eq)]
pub struct BasicCrossAccountId {
    from_ethereum: bool,
    substrate: [u8; 32],
    ethereum: [u8; 20],
}

/// Errors of reading an identity from bytes.
#[derive(Clone, Copy, Debug, PartialEq, Eq, Structural)]
pub enum DecodeError {
    /// The input ends before the identity does.
    NotEnoughData,
    /// The leading byte names neither space.
    UnknownVariant,
}

/// Lexicographic order of two byte strings of one length.
pub open spec fn bytes_lt(a: Seq<u8>, b: Seq<u8>) -> bool {
    exists|k: int|
        0 <= k < a.len() && k < b.len() && a[k] < b[k] && forall|j: int| 0 <= j < k ==> a[j] == b[j]
}

/// The SCALE form of an outward form: its variant index, then its bytes.
pub open spec fn encode_spec(r: BasicCrossAccountIdRepr) -> Seq<u8> {
    match r {
        BasicCrossAccountIdRepr::Substrate(s) => seq![0u8] + s@,
        BasicCrossAccountIdRepr::Ethereum(e) => seq![1u8] + e@,
    }
}

/// `b` starts with the SCALE form of `r`.
pub open spec fn decodes_to(b: Seq<u8>, r: BasicCrossAccountIdRepr) -> bool {
    match r {
        BasicCrossAccountIdRepr::Substrate(s) => b.len() >= 33 && b[0] == 0 && s@ == b.subrange(1, 33),
        BasicCrossAccountIdRepr::Ethereum(e) => b.len() >= 21 && b[0] == 1 && e@ == b.subrange(1, 21),
    }
}

/// `b` starts with the SCALE form of some identity.
pub open spec fn decodable(b: Seq<u8>) -> bool {
    (b.len() >= 33 && b[0] == 0) || (b.len() >= 21 && b[0] == 1)
}

impl BasicCrossAccountId {
    pub closed spec fn canonical_eth(self) -> bool {
        self.from_ethereum
    }

    pub closed spec fn sub_spec(self) -> [u8; 32] {
        self.substrate
    }

    pub closed spec fn eth_spec(self) -> [u8; 20] {
        self.ethereum
    }

    /// The canonical id, as its outward form.
    pub open spec fn repr_spec(self) -> BasicCrossAccountIdRepr {
        if self.canonical_eth() {
            BasicCrossAccountIdRepr::Ethereum(self.eth_spec())
        } else {
            BasicCrossAccountIdRepr::Substrate(self.sub_spec())
        }
    }

    /// Equal where both are canonical in one space and both ids match; across
    /// spaces, only the substrate ids are compared.
    pub open spec fn conv_eq_spec(self, other: BasicCrossAccountId) -> bool {
        if self.canonical_eth() == other.canonical_eth() {
            self.sub_spec() == other.sub_spec() && self.eth_spec() == other.eth_spec()
        } else {
            self.sub_spec() == other.sub_spec()
        }
    }

    /// The identity built from the outward form `repr`, its other id derived
    /// with the mappings of `C`.
    pub closed spec fn identity_of<C: Config>(repr: BasicCrossAccountIdRepr) -> BasicCrossAccountId {
        match repr {
            BasicCrossAccountIdRepr::Substrate(s) => BasicCrossAccountId {
                from_ethereum: false,
                substrate: s,
                ethereum: C::from_account_id_spec(s),
            },
            BasicCrossAccountIdRepr::Ethereum(e) => BasicCrossAccountId {
                from_ethereum: true,
                substrate: C::into_account_id_spec(e),
                ethereum: e,
            },
        }
    }

    pub fn as_sub(&self) -> (r: &[u8; 32])
        ensures
            *r == self.sub_spec(),
    {
        &self.substrate
    }

    pub fn as_eth(&self) -> (r: &[u8; 20])
        ensures
            *r == self.eth_spec(),
    {
        &self.ethereum
    }

    /// The identity whose canonical id is the substrate account `substrate`; its
    /// Ethereum address is derived with `C::from_account_id`.
    pub fn from_sub<C: Config>(substrate: [u8; 32]) -> (r: BasicCrossAccountId)
        ensures
            !r.canonical_eth(),
            r.sub_spec() == substrate,
            r.eth_spec() == C::from_account_id_spec(substrate),
            r.repr_spec() == BasicCrossAccountIdRepr::Substrate(substrate),
            r == Self::identity_of::<C>(BasicCrossAccountIdRepr::Substrate(substrate)),
    {
        BasicCrossAccountId {
            ethereum: C::from_account_id(substrate),
            substrate,
            from_ethereum: false,
        }
    }

    /// The identity whose canonical id is the Ethereum address `ethereum`; its
    /// substrate account is derived with `C::into_account_id`.
    pub fn from_eth<C: Config>(ethereum: [u8; 20]) -> (r: BasicCrossAccountId)
        ensures
            r.canonical_eth(),
            r.eth_spec() == ethereum,
            r.sub_spec() == C::into_account_id_spec(ethereum),
            r.repr_spec() == BasicCrossAccountIdRepr::Ethereum(ethereum),
            r == Self::identity_of::<C>(BasicCrossAccountIdRepr::Ethereum(ethereum)),
    {
        BasicCrossAccountId {
            ethereum,
            substrate: C::into_account_id(ethereum),
            from_ethereum: true,
        }
    }

    pub fn conv_eq(&self, other: &BasicCrossAccountId) -> (r: bool)
        ensures
            r == self.conv_eq_spec(*other),
    {
        if self.from_ethereum == other.from_ethereum {
            bytes_eq32(&self.substrate, &other.substrate) && bytes_eq20(&self.ethereum, &other.ethereum)
        } else {
            bytes_eq32(&self.substrate, &other.substrate)
        }
    }

    /// Order by substrate account alone.
    pub fn cmp(&self, other: &BasicCrossAccountId) -> (r: core::cmp::Ordering)
        ensures
            r == if bytes_lt(self.sub_spec()@, other.sub_spec()@) {
                core::cmp::Ordering::Less
            } else if self.sub_spec() == other.sub_spec() {
                core::cmp::Ordering::Equal
            } else {
                core::cmp::Ordering::Greater
            },
    {
        let a = &self.substrate;
        let b = &other.substrate;
        assert(self.sub_spec() == *a && other.sub_spec() == *b);
        let mut i: usize = 0;
        while i < 32
            invariant
                i <= 32,
                self.sub_spec() == *a,
                other.sub_spec() == *b,
                forall|j: int| 0 <= j < i ==> a@[j] == b@[j],
            decreases 32 - i,
        {
            if a[i] != b[i] {
                if a[i] < b[i] {
                    proof {
                        let k = i as int;
                        assert(0 <= k < a@.len() && k < b@.len() && a@[k] < b@[k] && forall|j: int|
                            0 <= j < k ==> a@[j] == b@[j]);
                        assert(bytes_lt(a@, b@));
                    }
                    return core::cmp::Ordering::Less;
                } else {
                    assert(!bytes_lt(a@, b@)) by {
                        if bytes_lt(a@, b@) {
                            let k = choose|k: int|
                                0 <= k < a@.len() && k < b@.len() && a@[k] < b@[k] && forall|j: int|
                                    0 <= j < k ==> a@[j] == b@[j];
                            assert(k != i as int);
                        }
                    }
                    assert(a@[i as int] != b@[i as int]);
                    assert(*a != *b);
                    assert(self.sub_spec() != other.sub_spec());
                    return core::cmp::Ordering::Greater;
                }
            }
            i = i + 1;
        }
        assert(*a =~= *b);
        assert(!bytes_lt(a@, b@));
        core::cmp::Ordering::Equal
    }

    pub fn partial_cmp(&self, other: &BasicCrossAccountId) -> (r: Option<core::cmp::Ordering>)
        ensures
            r == Some(
                if bytes_lt(self.sub_spec()@, other.sub_spec()@) {
                    core::cmp::Ordering::Less
                } else if self.sub_spec() == other.sub_spec() {
                    core::cmp::Ordering::Equal
                } else {
                    core::cmp::Ordering::Greater
                },
            ),
    {
        Some(self.cmp(other))
    }

    /// The outward form: the canonical id alone.
    pub fn to_repr(&self) -> (r: BasicCrossAccountIdRepr)
        ensures
            r == self.repr_spec(),
    {
        if self.from_ethereum {
            BasicCrossAccountIdRepr::Ethereum(self.ethereum)
        } else {
            BasicCrossAccountIdRepr::Substrate(self.substrate)
        }
    }

    /// Builds the identity back from its outward form, deriving the other id anew.
    pub fn from_repr<C: Config>(repr: BasicCrossAccountIdRepr) -> (r: BasicCrossAccountId)
        ensures
            r.repr_spec() == repr,
            r == Self::identity_of::<C>(repr),
    {
        match repr {
            BasicCrossAccountIdRepr::Substrate(s) => Self::from_sub::<C>(s),
            BasicCrossAccountIdRepr::Ethereum(e) => Self::from_eth::<C>(e),
        }
    }

    /// The longest SCALE form: one variant byte and a substrate id.
    pub fn max_encoded_len() -> (r: usize)
        ensures
            r == 33,
    {
        33
    }

    /// The SCALE form of the outward form.
    pub fn encode(&self) -> (r: Vec<u8>)
        ensures
            r@ == encode_spec(self.repr_spec()),
    {
        encode_repr(&self.to_repr())
    }

    /// Reads an identity from the front of `input`, deriving the other id anew.
    pub fn decode<C: Config>(input: &[u8]) -> (r: Result<BasicCrossAccountId, DecodeError>)
        ensures
            r is Ok <==> decodable(input@),
            r is Ok ==> decodes_to(input@, r->Ok_0.repr_spec()),
            r is Ok ==> r->Ok_0 == Self::identity_of::<C>(r->Ok_0.repr_spec()),
            r is Err ==> r->Err_0 == if input@.len() == 0 || (input@[0] == 0 && input@.len() < 33) || (
            input@[0] == 1 && input@.len() < 21) {
                DecodeError::NotEnoughData
            } else {
                DecodeError::UnknownVariant
            },
    {
        match decode_repr(input) {
            Ok(repr) => Ok(Self::from_repr::<C>(repr)),
            Err(e) => Err(e),
        }
    }
}

/// The SCALE form of an outward form reads back as that same form, and no
/// other form reads from those bytes.
pub proof fn lemma_encode_decode_round_trip(r: BasicCrossAccountIdRepr, other: BasicCrossAccountIdRepr)
    ensures
        decodable(encode_spec(r)),
        decodes_to(encode_spec(r), r),
        decodes_to(encode_spec(r), other) ==> other == r,
{
    let b = encode_spec(r);
    match r {
        BasicCrossAccountIdRepr::Substrate(s) => {
            assert(b.subrange(1, 33) =~= s@);
            if let BasicCrossAccountIdRepr::Substrate(s2) = other {
                if decodes_to(b, other) {
                    assert(s2 =~= s);
                }
            }
        },
        BasicCrossAccountIdRepr::Ethereum(e) => {
            assert(b.subrange(1, 21) =~= e@);
            if let BasicCrossAccountIdRepr::Ethereum(e2) = other {
                if decodes_to(b, other) {
                    assert(e2 =~= e);
                }
            }
        },
    }
}

/// An identity built with the mappings of `C` reads back the id it was built
/// from; decoding its SCALE form with the same mappings gives back the same
/// identity; and one built from an Ethereum address is conv-equal, and orders
/// equal, to one built from the account that address maps to.
pub proof fn lemma_identity_round_trip<C: Config>(repr: BasicCrossAccountIdRepr, decoded: BasicCrossAccountIdRepr)
    ensures
        BasicCrossAccountId::identity_of::<C>(repr).repr_spec() == repr,
        decodes_to(encode_spec(BasicCrossAccountId::identity_of::<C>(repr).repr_spec()), decoded)
            ==> BasicCrossAccountId::identity_of::<C>(decoded) == BasicCrossAccountId::identity_of::<C>(repr),
        forall|e: [u8; 20]|
            #![trigger BasicCrossAccountId::identity_of::<C>(BasicCrossAccountIdRepr::Ethereum(e))]
            BasicCrossAccountId::identity_of::<C>(BasicCrossAccountIdRepr::Ethereum(e)).conv_eq_spec(
                BasicCrossAccountId::identity_of::<C>(BasicCrossAccountIdRepr::Substrate(C::into_account_id_spec(e))),
            ) && BasicCrossAccountId::identity_of::<C>(BasicCrossAccountIdRepr::Ethereum(e)).sub_spec()
                == BasicCrossAccountId::identity_of::<C>(BasicCrossAccountIdRepr::Substrate(C::into_account_id_spec(e))).sub_spec(),
{
    lemma_encode_decode_round_trip(repr, decoded);
}

/// Two identities canonical in different spaces are equal exactly where their
/// substrate ids are, whichever of the two is asked; in one space, both ids
/// must match.
pub proof fn lemma_conv_eq_spaces(a: BasicCrossAccountId, b: BasicCrossAccountId)
    ensures
        a.canonical_eth() != b.canonical_eth() ==> (a.conv_eq_spec(b) <==> a.sub_spec() == b.sub_spec()),
        a.canonical_eth() != b.canonical_eth() ==> (a.conv_eq_spec(b) <==> b.conv_eq_spec(a)),
        a.canonical_eth() == b.canonical_eth() ==> (a.conv_eq_spec(b) <==> (a.sub_spec()
            == b.sub_spec() && a.eth_spec() == b.eth_spec())),
{
}

fn bytes_eq32(a: &[u8; 32], b: &[u8; 32]) -> (r: bool)
    ensures
        r == (*a == *b),
{
    let mut i: usize = 0;
    while i < 32
        invariant
            i <= 32,
            forall|j: int| 0 <= j < i ==> a@[j] == b@[j],
        decreases 32 - i,
    {
        if a[i] != b[i] {
            return false;
        }
        i = i + 1;
    }
    assert(*a =~= *b);
    true
}

fn bytes_eq20(a: &[u8; 20], b: &[u8; 20]) -> (r: bool)
    ensures
        r == (*a == *b),
{
    let mut i: usize = 0;
    while i < 20
        invariant
            i <= 20,
            forall|j: int| 0 <= j < i ==> a@[j] == b@[j],
        decreases 20 - i,
    {
        if a[i] != b[i] {
            return false;
        }
        i = i + 1;
    }
    assert(*a =~= *b);
    true
}

/// The SCALE form of an outward form: its variant index, then its bytes.
pub fn encode_repr(repr: &BasicCrossAccountIdRepr) -> (r: Vec<u8>)
    ensures
        r@ == encode_spec(*repr),
{
    let mut out: Vec<u8> = Vec::new();
    match repr {
        BasicCrossAccountIdRepr::Substrate(s) => {
            out.push(0u8);
            let mut i: usize = 0;
            while i < 32
                invariant
                    i <= 32,
                    out@ == seq![0u8] + s@.subrange(0, i as int),
                decreases 32 - i,
            {
                out.push(s[i]);
                i = i + 1;
            }
            assert(s@.subrange(0, 32) =~= s@);
        },
        BasicCrossAccountIdRepr::Ethereum(e) => {
            out.push(1u8);
            let mut i: usize = 0;
            while i < 20
                invariant
                    i <= 20,
                    out@ == seq![1u8] + e@.subrange(0, i as int),
                decreases 20 - i,
            {
                out.push(e[i]);
                i = i + 1;
            }
            assert(e@.subrange(0, 20) =~= e@);
        },
    }
    out
}

/// Reads an outward form from the front of `input`.
pub fn decode_repr(input: &[u8]) -> (r: Result<BasicCrossAccountIdRepr, DecodeError>)
    ensures
        r is Ok <==> decodable(input@),
        r is Ok ==> decodes_to(input@, r->Ok_0),
        r is Err ==> r->Err_0 == if input@.len() == 0 || (input@[0] == 0 && input@.len() < 33) || (
        input@[0] == 1 && input@.len() < 21) {
            DecodeError::NotEnoughData
        } else {
            DecodeError::UnknownVariant
        },
{
    if input.len() == 0 {
        return Err(DecodeError::NotEnoughData);
    }
    if input[0] == 0 {
        if input.len() < 33 {
            return Err(DecodeError::NotEnoughData);
        }
        let mut s: [u8; 32] = [0u8; 32];
        let mut i: usize = 0;
        while i < 32
            invariant
                i <= 32,
                input@.len() >= 33,
                forall|j: int| 0 <= j < i ==> s@[j] == input@[j + 1],
            decreases 32 - i,
        {
            s[i] = input[i + 1];
            i = i + 1;
        }
        assert(s@ =~= input@.subrange(1, 33));
        Ok(BasicCrossAccountIdRepr::Substrate(s))
    } else if input[0] == 1 {
        if input.len() < 21 {
            return Err(DecodeError::NotEnoughData);
        }
        let mut e: [u8; 20] = [0u8; 20];
        let mut i: usize = 0;
        while i < 20
            invariant
                i <= 20,
                input@.len() >= 21,
                forall|j: int| 0 <= j < i ==> e@[j] == input@[j + 1],
            decreases 20 - i,
        {
            e[i] = input[i + 1];
            i = i + 1;
        }
        assert(e@ =~= input@.subrange(1, 21));
        Ok(BasicCrossAccountIdRepr::Ethereum(e))
    } else {
        Err(DecodeError::UnknownVariant)
    }
}

} // verus!
