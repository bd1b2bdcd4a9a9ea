use vstd::prelude::*;

verus! {

pub const CONFIG_DESCRIPTOR_LEN: usize = 256;
pub const BOS_DESCRIPTOR_LEN: usize = 256;
pub const CONTROL_BUF_LEN: usize = 64;

/// The buffers reserved at startup.
#[derive(Clone, Copy, Debug, PartialEq, Eq, Structural)]
pub enum BufferId {
    ConfigDescriptor,
    BosDescriptor,
    ControlBuf,
}

/// A buffer was asked for a second time.
#[derive(Clone, Copy, Debug, PartialEq, Eq, Structural)]
pub struct DoubleInit;

pub open spec fn buffer_len(id: BufferId) -> usize {
    match id {
        BufferId::ConfigDescriptor => CONFIG_DESCRIPTOR_LEN,
        BufferId::BosDescriptor => BOS_DESCRIPTOR_LEN,
        BufferId::ControlBuf => CONTROL_BUF_LEN,
    }
}

/// Fixed-size buffers, each handed out at most once.
#[derive(Clone, Copy, Debug, PartialEq, Eq, Structural)]
pub struct StaticArena {
    pub config_taken: bool,
    pub bos_taken: bool,
    pub control_taken: bool,
}

pub open spec fn taken(a: StaticArena, id: BufferId) -> bool {
    match id {
        BufferId::ConfigDescriptor => a.config_taken,
        BufferId::BosDescriptor => a.bos_taken,
        BufferId::ControlBuf => a.control_taken,
    }
}

impl StaticArena {
    pub fn new() -> (r: StaticArena)
        ensures
            !r.config_taken && !r.bos_taken && !r.control_taken,
    {
        StaticArena { config_taken: false, bos_taken: false, control_taken: false }
    }

    /// Hands out buffer `id`, zeroed, the first time; fails with `DoubleInit`
    /// after that.
    pub fn reserve(&mut self, id: BufferId) -> (r: Result<Vec<u8>, DoubleInit>)
        ensures
            r.is_ok() == !taken(*old(self), id),
            r matches Ok(b) ==> b@ == Seq::new(buffer_len(id) as nat, |i: int| 0u8),
            taken(*final(self), id),
            forall|o: BufferId| o != id ==> taken(*final(self), o) == taken(*old(self), o),
    {
        let len = match id {
            BufferId::ConfigDescriptor => {
                if self.config_taken {
                    return Err(DoubleInit);
                }
                self.config_taken = true;
                CONFIG_DESCRIPTOR_LEN
            },
            BufferId::BosDescriptor => {
                if self.bos_taken {
                    return Err(DoubleInit);
                }
                self.bos_taken = true;
                BOS_DESCRIPTOR_LEN
            },
            BufferId::ControlBuf => {
                if self.control_taken {
                    return Err(DoubleInit);
                }
                self.control_taken = true;
                CONTROL_BUF_LEN
            },
        };
        let b = vec![0u8; len];
        assert(b@ =~= Seq::new(buffer_len(id) as nat, |i: int| 0u8));
        Ok(b)
    }
}

} // verus!
