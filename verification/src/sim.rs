//! An in-memory bus for exercising the driver without hardware.
//!
//! Reads are answered from a script of byte sequences and injected faults;
//! writes and waits succeed (unless scripted to fail) and are logged, so a
//! test can check which commands were issued and which waits were requested.

use crate::bus::Bus;
use crate::error::BusError;
use vstd::prelude::*;

verus! {

/// One scripted answer to a read: the device replies with bytes, or the
/// transport faults.
#[derive(Debug)]
pub enum ScriptedRead {
    Reply(Vec<u8>),
    Fault,
}

/// The scripted bus.  Script entries are consumed front to back; a read past
/// the end of its script, and a reply shorter or longer than the requested
/// length, are transport faults.
#[derive(Debug)]
pub struct SimBus {
    /// Outcomes handed out to successive reads.
    pub read_script: Vec<ScriptedRead>,
    /// Outcomes of successive writes (`false` fails); beyond the script,
    /// writes succeed.
    pub write_script: Vec<bool>,
    /// Log of the successful writes, as (address, bytes written).
    pub writes: Vec<(u8, Vec<u8>)>,
    /// Log of every wait that was requested, in milliseconds.
    pub delays: Vec<u32>,
}

fn copy_bytes(src: &Vec<u8>) -> (r: Vec<u8>)
    ensures
        r@ == src@,
{
    let mut out: Vec<u8> = Vec::new();
    let mut i: usize = 0;
    while i < src.len()
        invariant
            i <= src@.len(),
            out@ == src@.subrange(0, i as int),
        decreases src@.len() - i,
    {
        out.push(src[i]);
        i = i + 1;
        proof {
            assert(out@ =~= src@.subrange(0, i as int));
        }
    }
    proof {
        assert(out@ =~= src@);
    }
    out
}

impl SimBus {
    /// A bus whose reads follow `read_script` and whose writes all succeed.
    pub fn new(read_script: Vec<ScriptedRead>) -> (r: SimBus)
        ensures
            r.read_script == read_script,
            r.write_script@.len() == 0,
            r.writes@.len() == 0,
            r.delays@.len() == 0,
    {
        SimBus { read_script, write_script: Vec::new(), writes: Vec::new(), delays: Vec::new() }
    }

    /// A bus with both a read script and a write script.
    pub fn with_write_script(read_script: Vec<ScriptedRead>, write_script: Vec<bool>) -> (r:
        SimBus)
        ensures
            r.read_script == read_script,
            r.write_script == write_script,
            r.writes@.len() == 0,
            r.delays@.len() == 0,
    {
        SimBus { read_script, write_script, writes: Vec::new(), delays: Vec::new() }
    }
}

impl Bus for SimBus {
    fn write(&mut self, addr: u8, data: &Vec<u8>) -> (r: Result<(), BusError>) {
        if self.write_script.len() > 0 {
            let ok = self.write_script.remove(0);
            if !ok {
                return Err(BusError);
            }
        }
        let logged = copy_bytes(data);
        self.writes.push((addr, logged));
        Ok(())
    }

    fn read(&mut self, addr: u8, reg: u8, len: usize) -> (r: Result<Vec<u8>, BusError>) {
        if self.read_script.len() == 0 {
            return Err(BusError);
        }
        let entry = self.read_script.remove(0);
        match entry {
            ScriptedRead::Fault => Err(BusError),
            ScriptedRead::Reply(bytes) => {
                if bytes.len() == len {
                    Ok(bytes)
                } else {
                    Err(BusError)
                }
            },
        }
    }

    fn delay_ms(&mut self, ms: u32) {
        self.delays.push(ms);
    }
}

} // verus!
