//! Which processors the registers are laid out for.
use vstd::prelude::*;
use vstd::string::StringSliceAdditionalSpecFns;

verus! {

/// The vendor identification string of Intel processors, as bytes.
pub open spec fn genuine_intel() -> Seq<u8> {
    seq![
        0x47u8, 0x65u8, 0x6eu8, 0x75u8, 0x69u8, 0x6eu8, 0x65u8, 0x49u8, 0x6eu8, 0x74u8, 0x65u8,
        0x6cu8,
    ]
}

/// Whether a processor with this vendor string and these identification
/// fields is supported: Intel, family 6, extended family 0, model 0x25.
pub fn is_supported_cpu(vendor: &str, extended_family: u8, family: u8, model: u8) -> (r: bool)
    ensures
        r == (vendor.spec_bytes() == genuine_intel() && extended_family == 0 && family == 6
            && model == 0x25),
{
    let expected: [u8; 12] = [0x47, 0x65, 0x6e, 0x75, 0x69, 0x6e, 0x65, 0x49, 0x6e, 0x74, 0x65, 0x6c];
    assert(expected@ == genuine_intel());
    let bytes = vendor.as_bytes();
    if bytes.len() != 12 {
        assert(bytes@.len() != genuine_intel().len());
        return false;
    }
    let mut i: usize = 0;
    while i < 12
        invariant
            bytes@ == vendor.spec_bytes(),
            bytes@.len() == 12,
            expected@ == genuine_intel(),
            0 <= i <= 12,
            forall|j: int| 0 <= j < i ==> bytes@[j] == expected@[j],
        decreases 12 - i,
    {
        if bytes[i] != expected[i] {
            assert(bytes@[i as int] != genuine_intel()[i as int]);
            return false;
        }
        i = i + 1;
    }
    assert(bytes@ == expected@);
    extended_family == 0 && family == 6 && model == 0x25
}

} // verus!
