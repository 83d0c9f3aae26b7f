//! The status of a process of the virtual machine, and the counters that a
//! process keeps of its garbage collections.
use vstd::prelude::*;

verus! {

#[derive(Debug, Clone, Copy, PartialEq, Eq, Structural)]
pub enum ProcessStatus {
    /// The process has been (re-)scheduled for execution.
    Scheduled,
    /// The process is running.
    Running,
    /// The process has been suspended.
    Suspended,
    /// The process has been suspended for garbage collection.
    SuspendForGc,
    /// The process is waiting for a message to arrive.
    WaitingForMessage,
    /// The process has finished execution.
    Finished,
}

impl ProcessStatus {
    pub fn is_running(&self) -> (r: bool)
        ensures
            r == (*self is Running),
    {
        matches!(self, ProcessStatus::Running)
    }

    /// The number that stands for the status: the place of the status in the
    /// order of the life of a process, counting from zero.
    pub fn status_integer(&self) -> (r: usize)
        ensures
            r == (match *self {
                ProcessStatus::Scheduled => 0usize,
                ProcessStatus::Running => 1usize,
                ProcessStatus::Suspended => 2usize,
                ProcessStatus::SuspendForGc => 3usize,
                ProcessStatus::WaitingForMessage => 4usize,
                ProcessStatus::Finished => 5usize,
            }),
    {
        match *self {
            ProcessStatus::Scheduled => 0,
            ProcessStatus::Running => 1,
            ProcessStatus::Suspended => 2,
            ProcessStatus::SuspendForGc => 3,
            ProcessStatus::WaitingForMessage => 4,
            ProcessStatus::Finished => 5,
        }
    }

    /// True if the process can be picked for execution: it is scheduled.
    pub fn available_for_execution(&self) -> (r: bool)
        ensures
            r == (*self is Scheduled),
    {
        matches!(self, ProcessStatus::Scheduled)
    }

    pub fn is_waiting_for_message(&self) -> (r: bool)
        ensures
            r == (*self is WaitingForMessage),
    {
        matches!(self, ProcessStatus::WaitingForMessage)
    }
}

/// The counters of a process that only the thread that runs the process
/// changes.
#[derive(Debug, Clone, Copy, PartialEq, Eq, Structural)]
pub struct LocalData {
    /// The number of young garbage collections that have been performed.
    pub young_collections: usize,
    /// The number of mature garbage collections that have been performed.
    pub mature_collections: usize,
    /// The number of mailbox collections that have been performed.
    pub mailbox_collections: usize,
    /// The ID of the pool that this process belongs to.
    pub pool_id: usize,
}

impl LocalData {
    /// The counters of a process of the pool `pool_id` that has not collected
    /// any garbage yet.
    pub fn new(pool_id: usize) -> (r: LocalData)
        ensures
            r == (LocalData {
                young_collections: 0,
                mature_collections: 0,
                mailbox_collections: 0,
                pool_id,
            }),
    {
        LocalData { young_collections: 0, mature_collections: 0, mailbox_collections: 0, pool_id }
    }

    /// Counts a garbage collection: a mature one if `mature` is set, a young
    /// one otherwise.
    pub fn update_collection_statistics(&mut self, mature: bool)
        requires
            mature ==> old(self).mature_collections < usize::MAX,
            !mature ==> old(self).young_collections < usize::MAX,
        ensures
            *final(self) == (if mature {
                LocalData { mature_collections: (old(self).mature_collections + 1) as usize,
                    ..*old(self) }
            } else {
                LocalData { young_collections: (old(self).young_collections + 1) as usize,
                    ..*old(self) }
            }),
    {
        if mature {
            self.mature_collections += 1;
        } else {
            self.young_collections += 1;
        }
    }

    /// Counts a collection of the mailbox.
    pub fn update_mailbox_collection_statistics(&mut self)
        requires
            old(self).mailbox_collections < usize::MAX,
        ensures
            *final(self) == (LocalData {
                mailbox_collections: (old(self).mailbox_collections + 1) as usize,
                ..*old(self)
            }),
    {
        self.mailbox_collections += 1;
    }
}

} // verus!
