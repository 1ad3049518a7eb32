//! Deterministic port selection from a project name.

use vstd::prelude::*;
use vstd::string::StringSliceAdditionalSpecFns;

verus! {

/// First port of the range that [`deterministic_port`] draws from.
pub const PORT_BASE: u16 = 13000;

/// Number of ports in that range.
pub const PORT_SPAN: u32 = 1000;

/// The 32-bit polynomial hash of `bytes`: each byte multiplies the running
/// value by 31 and adds itself, modulo 2^32.
pub open spec fn name_hash(bytes: Seq<u8>) -> nat
    decreases bytes.len(),
{
    if bytes.len() == 0 {
        0
    } else {
        ((name_hash(bytes.drop_last()) * 31 + bytes.last() as nat) % 0x1_0000_0000) as nat
    }
}

/// The port assigned to a project name.
pub open spec fn port_of(bytes: Seq<u8>) -> int {
    PORT_BASE as int + (name_hash(bytes) % (PORT_SPAN as nat)) as int
}

/// Maps a project name to a port in `13000..14000`, the same port for the
/// same name on every run.
pub fn deterministic_port(project_type: &str) -> (port: u16)
    ensures
        port as int == port_of(project_type.spec_bytes()),
        13000 <= port < 14000,
{
    let bytes = project_type.as_bytes();
    let mut hash: u32 = 0;
    let mut i: usize = 0;
    while i < bytes.len()
        invariant
            i <= bytes@.len(),
            hash as nat == name_hash(bytes@.take(i as int)),
        decreases bytes@.len() - i,
    {
        let b: u32 = bytes[i] as u32;
        proof {
            let next = bytes@.take(i as int + 1);
            assert(next.drop_last() =~= bytes@.take(i as int));
            assert(next.last() == bytes@[i as int]);
        }
        hash = hash.wrapping_mul(31).wrapping_add(b);
        i = i + 1;
    }
    proof {
        assert(bytes@.take(i as int) =~= bytes@);
    }
    let offset: u32 = hash % PORT_SPAN;
    PORT_BASE + offset as u16
}

} // verus!
