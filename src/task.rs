use vstd::prelude::*;

verus! {

/// One recorded stretch of work on a named task, with times in epoch seconds.
/// `finished_at` is `None` while the task is in progress.
#[derive(Debug)]
pub struct Task {
    pub id: i32,
    pub name: String,
    pub started_at: i64,
    pub finished_at: Option<i64>,
}

/// What punching in hands to the store: the id is assigned there.
#[derive(Debug)]
pub struct NewTask {
    pub name: String,
    pub started_at: i64,
}

impl Task {
    /// A finished record never ends before it started.
    pub open spec fn wf(self) -> bool {
        match self.finished_at {
            Some(f) => self.started_at <= f,
            None => true,
        }
    }

    pub open spec fn is_unfinished(self) -> bool {
        self.finished_at is None
    }

    /// A field-for-field copy.
    pub fn copied(&self) -> (r: Task)
        ensures
            r == *self,
    {
        Task {
            id: self.id,
            name: self.name.clone(),
            started_at: self.started_at,
            finished_at: self.finished_at,
        }
    }
}

pub open spec fn all_wf(ts: Seq<Task>) -> bool {
    forall|i: int| 0 <= i < ts.len() ==> (#[trigger] ts[i]).wf()
}

} // verus!

verus! {

/// What lowercasing the characters `s` gives.
pub uninterp spec fn lower_of(s: Seq<char>) -> Seq<char>;

/// Relies on `str::to_lowercase`: the lowercase form of a task name, which
/// depends on its characters alone.
#[verifier::external_body]
pub(crate) fn lowercase(s: &str) -> (r: String)
    ensures
        r@ == lower_of(s@),
{
    s.to_lowercase()
}

} // verus!
