//! Device-tree match entries naming the devices the driver binds to.
use vstd::prelude::*;
use crate::cstr::{c_str, lemma_c_str_of_prefix};

verus! {

/// Port type of the 16550A.
pub const PORT_16550A: u32 = 4;

/// A device-tree match entry: a node name, a `compatible` string and a type,
/// each in a NUL-padded buffer, and the driver data for matching devices.
#[derive(Clone, Copy, Debug)]
pub struct OfDeviceId {
    pub name: [u8; 32],
    pub compatible: [u8; 128],
    pub type_: [u8; 32],
    pub data: usize,
}

/// `n` NUL bytes.
pub open spec fn nuls(n: nat) -> Seq<u8> {
    Seq::new(n, |i: int| 0u8)
}

/// A match entry for devices compatible with `comp`, carrying `data`: the
/// `compatible` buffer holds `comp` padded with NULs, the other buffers are
/// empty.
pub fn new_of_device_id(comp: &[u8], data: u32) -> (id: OfDeviceId)
    requires
        comp@.len() <= 128,
    ensures
        id.compatible@ == comp@ + nuls((128 - comp@.len()) as nat),
        id.name@ == nuls(32),
        id.type_@ == nuls(32),
        id.data == data as usize,
        comp@.len() < 128 && (forall|i: int| 0 <= i < comp@.len() ==> comp@[i] != 0)
            ==> c_str(id.compatible@) == comp@,
{
    let mut compatible: [u8; 128] = [0u8; 128];
    assert(compatible@ =~= nuls(128));
    let mut i: usize = 0;
    while i < comp.len()
        invariant
            0 <= i <= comp@.len() <= 128,
            compatible@.len() == 128,
            forall|j: int| 0 <= j < i ==> compatible@[j] == comp@[j],
            forall|j: int| i <= j < 128 ==> compatible@[j] == 0,
        decreases comp.len() - i,
    {
        compatible[i] = comp[i];
        i = i + 1;
    }
    let name: [u8; 32] = [0u8; 32];
    let type_: [u8; 32] = [0u8; 32];
    assert(compatible@ =~= comp@ + nuls((128 - comp@.len()) as nat));
    assert(name@ =~= nuls(32));
    assert(type_@ =~= nuls(32));
    proof {
        if comp@.len() < 128 && (forall|i: int| 0 <= i < comp@.len() ==> comp@[i] != 0) {
            lemma_c_str_of_prefix(compatible@, comp@);
        }
    }
    OfDeviceId { name, compatible, type_, data: data as usize }
}

/// The `compatible` string `ns16550a`.
pub open spec fn ns16550a_compatible() -> Seq<u8> {
    seq![110u8, 115, 49, 54, 53, 53, 48, 97]
}

/// The entry matching `ns16550a` devices, which are 16550A ports: empty name
/// and type, `compatible` holding `ns16550a` padded with NULs.
pub open spec fn is_ns16550a_entry(id: OfDeviceId) -> bool {
    &&& id.compatible@ == ns16550a_compatible() + nuls(120)
    &&& id.name@ == nuls(32)
    &&& id.type_@ == nuls(32)
    &&& id.data == PORT_16550A
}

/// The match table of the driver: a single entry for `ns16550a` devices, which
/// are 16550A ports.
pub fn of_device_id_list() -> (out: Vec<OfDeviceId>)
    ensures
        out@.len() == 1,
        is_ns16550a_entry(out@[0]),
        c_str(out@[0].compatible@) == ns16550a_compatible(),
{
    let comp: [u8; 8] = [110, 115, 49, 54, 53, 53, 48, 97];
    assert(comp@ =~= ns16550a_compatible());
    let mut out: Vec<OfDeviceId> = Vec::new();
    out.push(new_of_device_id(comp.as_slice(), PORT_16550A));
    out
}

} // verus!
