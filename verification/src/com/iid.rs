use vstd::prelude::*;

verus! {

/// The 128-bit identifier that names one dispatch-table shape.
///
/// The fields hold the identifier in the order in which it is written:
/// `data1-data2-data3-` and then the sixteen hexadecimal digits of `data4`.
#[derive(Clone, Copy, Debug, PartialEq, Eq, Structural)]
pub struct IID {
    pub data1: u32,
    pub data2: u16,
    pub data3: u16,
    pub data4: u64,
}

impl IID {
    /// The identifier written `d1-d2-d3-d4-d5`, where `d5` gives the last
    /// twelve hexadecimal digits.
    pub open spec fn spec_new(d1: u32, d2: u16, d3: u16, d4: u16, d5: u64) -> IID {
        IID { data1: d1, data2: d2, data3: d3, data4: ((d4 as u64) << 48u64) | d5 }
    }

    /// Builds the identifier written `d1-d2-d3-d4-d5`.
    pub fn new(d1: u32, d2: u16, d3: u16, d4: u16, d5: u64) -> (iid: IID)
        ensures
            iid == Self::spec_new(d1, d2, d3, d4, d5),
    {
        IID { data1: d1, data2: d2, data3: d3, data4: ((d4 as u64) << 48u64) | d5 }
    }

    /// Whether two identifiers name the same dispatch-table shape.
    pub fn same(&self, other: &IID) -> (same: bool)
        ensures
            same == (*self == *other),
    {
        self.data1 == other.data1 && self.data2 == other.data2 && self.data3 == other.data3
            && self.data4 == other.data4
    }
}

/// Identifiers written differently are different, as long as the last part
/// has no more than its twelve hexadecimal digits.
pub proof fn lemma_iid_parts_decide(
    d1: u32, d2: u16, d3: u16, d4: u16, d5: u64,
    e1: u32, e2: u16, e3: u16, e4: u16, e5: u64,
)
    requires
        d5 < 0x1_0000_0000_0000,
        e5 < 0x1_0000_0000_0000,
    ensures
        IID::spec_new(d1, d2, d3, d4, d5) == IID::spec_new(e1, e2, e3, e4, e5) <==> (d1 == e1
            && d2 == e2 && d3 == e3 && d4 == e4 && d5 == e5),
{
    assert((((d4 as u64) << 48u64) | d5) == (((e4 as u64) << 48u64) | e5) ==> d4 == e4 && d5 == e5)
        by (bit_vector)
        requires
            d5 < 0x1_0000_0000_0000,
            e5 < 0x1_0000_0000_0000,
    ;
}

/// A dispatch-table shape that has an identifier.
pub trait ComInterface {
    /// The identifier of this shape.
    spec fn spec_iid() -> IID;

    /// The identifier of this shape.
    fn Iid() -> (iid: IID)
        ensures
            iid == Self::spec_iid(),
    ;
}

} // verus!
