use vstd::prelude::*;

use crate::bus::Bus;

verus! {

/// Fault reported by a scripted failure of `SimBus`.
#[derive(Clone, Copy, Debug, PartialEq, Eq, Structural)]
pub struct SimFault;

/// An in-memory bus that records every transaction and can fail on
/// cue, for exercising the driver without hardware.
///
/// The `i`-th write attempt fails when `script[i]` is true; attempts
/// past the script's end succeed. A failed attempt records nothing.
pub struct SimBus {
    /// Completed transactions, oldest first: device address and bytes.
    pub writes: Vec<(u8, Vec<u8>)>,
    /// Scripted outcomes, one per write attempt.
    pub script: Vec<bool>,
    /// Index of the next script entry to consume.
    pub cursor: usize,
}

impl SimBus {
    /// A bus on which every write succeeds.
    pub fn new() -> (r: SimBus)
        ensures
            r.written() == Seq::<(u8, Seq<u8>)>::empty(),
    {
        let r = SimBus { writes: Vec::new(), script: Vec::new(), cursor: 0 };
        proof {
            assert(r.written() =~= Seq::<(u8, Seq<u8>)>::empty());
        }
        r
    }

    /// A bus whose `i`-th write attempt fails exactly when `script[i]`
    /// is true; attempts past the script's end succeed.
    pub fn with_script(script: Vec<bool>) -> (r: SimBus)
        ensures
            r.written() == Seq::<(u8, Seq<u8>)>::empty(),
    {
        let r = SimBus { writes: Vec::new(), script, cursor: 0 };
        proof {
            assert(r.written() =~= Seq::<(u8, Seq<u8>)>::empty());
        }
        r
    }
}

impl Bus for SimBus {
    type Fault = SimFault;

    open spec fn written(&self) -> Seq<(u8, Seq<u8>)> {
        self.writes@.map_values(|w: (u8, Vec<u8>)| (w.0, w.1@))
    }

    fn write(&mut self, address: u8, data: &[u8]) -> (r: Result<(), SimFault>) {
        let fail: bool = if self.cursor < self.script.len() {
            let f = self.script[self.cursor];
            self.cursor = self.cursor + 1;
            f
        } else {
            false
        };
        if fail {
            Err(SimFault)
        } else {
            let mut bytes: Vec<u8> = Vec::new();
            let mut i: usize = 0;
            while i < data.len()
                invariant
                    i <= data@.len(),
                    bytes@ == data@.take(i as int),
                decreases data@.len() - i,
            {
                bytes.push(data[i]);
                proof {
                    assert(bytes@ =~= data@.take(i + 1 as int));
                }
                i = i + 1;
            }
            proof {
                assert(bytes@ =~= data@);
            }
            self.writes.push((address, bytes));
            proof {
                assert(self.written() =~= old(self).written().push((address, data@)));
            }
            Ok(())
        }
    }
}

} // verus!
