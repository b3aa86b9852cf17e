use vstd::prelude::*;

verus! {

/// `uuid::Uuid`, the 128-bit identifier of the `uuid` crate. It is carried
/// as an opaque value: nothing is stated of what it holds.
#[verifier::external_type_specification]
#[verifier::external_body]
pub struct ExUuid(uuid::Uuid);

/// A User ID
#[derive(Copy, Clone, Debug, Eq, PartialEq, Hash, PartialOrd, Ord)]
pub struct UserId(pub uuid::Uuid);

/// A Battle ID
#[derive(Copy, Clone, Debug, Eq, PartialEq, Hash, PartialOrd, Ord)]
pub struct BattleId(pub uuid::Uuid);

/// Identifies a card or card-like object such as:
///
/// - A normal card
/// - A copy of a card on the stack
/// - A token or copy of a card in play
///
/// An identifier is a slot index and the version of that slot. The
/// version of a slot that is in use is odd.
#[derive(Copy, Clone, Debug, Eq, PartialEq, Hash, Structural)]
pub struct CardId {
    pub idx: u32,
    pub version: u32,
}

/// The slot index that the low half of `value` holds.
pub open spec fn index_of(value: u64) -> u32 {
    (value & 0xffff_ffff) as u32
}

/// The version that the high half of `value` holds, made odd.
pub open spec fn version_of(value: u64) -> u32 {
    ((value >> 32) | 1) as u32
}

/// The number that stands for a slot index and a version: the version in
/// the high half, the index in the low half.
pub open spec fn number_of(idx: u32, version: u32) -> u64 {
    ((version as u64) << 32) | (idx as u64)
}

impl CardId {
    /// True if the version is odd, as it is for every identifier that
    /// [`CardId::from_int`] makes.
    pub open spec fn well_formed(self) -> bool {
        self.version & 1 == 1
    }

    /// Converts an opaque number received from [Self::to_int] into a card
    /// id
    pub fn from_int(value: u64) -> (id: Self)
        ensures
            id.idx == index_of(value),
            id.version == version_of(value),
            id.well_formed(),
    {
        let idx: u64 = value & 0xffff_ffff;
        let version: u64 = (value >> 32) | 1;
        assert(idx <= 0xffff_ffff) by (bit_vector)
            requires
                idx == value & 0xffff_ffff,
        ;
        assert(version <= 0xffff_ffff && (version as u32) & 1 == 1) by (bit_vector)
            requires
                version == (value >> 32) | 1,
        ;
        Self { idx: idx as u32, version: version as u32 }
    }

    /// Returns an opaque number which can later be converted back into a card
    /// id
    pub fn to_int(&self) -> (value: u64)
        ensures
            value == number_of(self.idx, self.version),
    {
        ((self.version as u64) << 32) | (self.idx as u64)
    }
}

/// A well-formed identifier comes back unchanged from the number that
/// stands for it.
pub proof fn lemma_number_round_trip(id: CardId)
    requires
        id.well_formed(),
    ensures
        index_of(number_of(id.idx, id.version)) == id.idx,
        version_of(number_of(id.idx, id.version)) == id.version,
{
    let idx = id.idx;
    let version = id.version;
    assert(((((version as u64) << 32) | (idx as u64)) & 0xffff_ffff) as u32 == idx) by (bit_vector);
    assert((((((version as u64) << 32) | (idx as u64)) >> 32) | 1) as u32 == version)
        by (bit_vector)
        requires
            version & 1 == 1,
    ;
}

} // verus!
