//! The buttons of the LM-X wheel, which light up in one colour.

use vstd::prelude::*;

verus! {

/// The sum of the first `n` of `bytes`.
pub open spec fn byte_sum(bytes: Seq<u8>, n: nat) -> nat
    decreases n,
{
    if n == 0 || n > bytes.len() {
        0
    } else {
        byte_sum(bytes, (n - 1) as nat) + bytes[n - 1] as nat
    }
}

/// The package that sets the colour of the buttons, but for its checksum.
pub open spec fn spec_color_package_body(r: u8, g: u8, b: u8) -> Seq<u8> {
    seq![0x00u8, 0xffu8, 0xaau8, 0x43u8, 0x01u8, 0x02u8, 0xe1u8, b, g, r, 0x00u8, 0x00u8]
}

/// The checksum of a package: the sum of its bytes, modulo 256.
pub fn calculate_checksum(bytes: &[u8]) -> (checksum: u8)
    ensures
        checksum == byte_sum(bytes@, bytes@.len()) % 256,
{
    let mut sum: u32 = 0;
    let mut i: usize = 0;
    while i < bytes.len()
        invariant
            i <= bytes@.len(),
            sum < 256,
            sum == byte_sum(bytes@, i as nat) % 256,
        decreases bytes@.len() - i,
    {
        sum = (sum + bytes[i] as u32) % 256;
        i += 1;
    }
    sum as u8
}

/// The package that sets the colour of the buttons: a header, the colour as
/// blue, green and red, two bytes of zero, and the checksum of all that.
pub fn color_package(r: u8, g: u8, b: u8) -> (package: Vec<u8>)
    ensures
        package@.len() == 13,
        package@.subrange(0, 12) == spec_color_package_body(r, g, b),
        package@[12] == byte_sum(package@, 12) % 256,
{
    let mut package: Vec<u8> = Vec::new();
    package.push(0x00);
    package.push(0xff);
    package.push(0xaa);
    package.push(0x43);
    package.push(0x01);
    package.push(0x02);
    package.push(0xe1);
    package.push(b);
    package.push(g);
    package.push(r);
    package.push(0x00);
    package.push(0x00);
    let ghost body = package@;
    let checksum = calculate_checksum(package.as_slice());
    package.push(checksum);
    proof {
        assert(package@.subrange(0, 12) =~= body);
        assert(body =~= spec_color_package_body(r, g, b));
        lemma_byte_sum_prefix(body, package@, 12);
    }
    package
}

/// The sum of the first `n` bytes depends on these alone.
pub proof fn lemma_byte_sum_prefix(bytes: Seq<u8>, longer: Seq<u8>, n: nat)
    requires
        n <= bytes.len() <= longer.len(),
        forall|i: int| 0 <= i < n ==> bytes[i] == longer[i],
    ensures
        byte_sum(bytes, n) == byte_sum(longer, n),
    decreases n,
{
    if n > 0 {
        lemma_byte_sum_prefix(bytes, longer, (n - 1) as nat);
    }
}

} // verus!
