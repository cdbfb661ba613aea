use vstd::prelude::*;
use crate::api::{RemoteOp, RemoteRequest, is_request_for, request_for};
use crate::auth::{AppConfigs, AuthManager};
use crate::clock::now_secs;
use crate::errors::PunchTaskError;
use crate::listing::{TaskListItem, listing_post};
use crate::local::{cancel_post, punch_in_post, punch_out_post};
use crate::store::{TaskStore, has_unfinished};
use crate::task::{Task, lower_of, lowercase};
use crate::window::{TaskStat, report_post};

verus! {

/// What an operation came to: done against the local store, or a request that
/// the caller sends to the service, handing the reply to the matching
/// function of `api`.
pub enum Dispatch<T> {
    Done(Result<T, PunchTaskError>),
    Remote(RemoteRequest),
}

/// The punch engine. Each call works on the service when the session holds
/// a credential and on the local store otherwise.
pub struct Puncher {
    pub auth_manager: AuthManager,
    pub configs: AppConfigs,
    pub store: TaskStore,
}

impl Puncher {
    /// The request that `op` on `name` is, when the session holds a credential.
    pub open spec fn remote_call(
        self,
        r: RemoteRequest,
        op: RemoteOp,
        name: Seq<char>,
        since: i64,
        until: i64,
    ) -> bool {
        is_request_for(
            r,
            self.configs.api_endpoint@,
            self.auth_manager.spec_token()->0@,
            op,
            name,
            since,
            until,
        )
    }

    pub open spec fn is_remote(self) -> bool {
        self.auth_manager.spec_token() is Some
    }

    /// The session and the settings are the same in `other`.
    pub open spec fn same_session(self, other: Puncher) -> bool {
        self.auth_manager == other.auth_manager && self.configs == other.configs
    }

    pub fn new(auth_manager: AuthManager, configs: AppConfigs, store: TaskStore) -> (r: Puncher)
        ensures
            r.auth_manager == auth_manager,
            r.configs == configs,
            r.store == store,
    {
        Puncher { auth_manager, configs, store }
    }

    fn request(&self, op: RemoteOp, name: &String, since: i64, until: i64) -> (r: Option<
        RemoteRequest,
    >)
        ensures
            self.is_remote() ==> (r matches Some(req) && self.remote_call(
                req,
                op,
                name@,
                since,
                until,
            )),
            !self.is_remote() ==> r is None,
    {
        match self.auth_manager.get_access_token() {
            Some(token) => Some(
                request_for(&self.configs.api_endpoint, &token, op, name, since, until),
            ),
            None => None,
        }
    }

    /// Starts the task `task_name`, stored lowercase, at `now`.
    pub fn punch_in_at(&mut self, task_name: &str, now: i64) -> (r: Dispatch<i64>)
        requires
            old(self).store.wf(),
        ensures
            final(self).store.wf(),
            final(self).same_session(*old(self)),
            old(self).is_remote() ==> (r matches Dispatch::Remote(req) && old(self).remote_call(
                req,
                RemoteOp::PunchIn,
                lower_of(task_name@),
                0,
                0,
            ) && final(self).store == old(self).store),
            !old(self).is_remote() ==> (r matches Dispatch::Done(res) && punch_in_post(
                old(self).store@,
                old(self).store.spec_next_id(),
                lower_of(task_name@),
                now,
                final(self).store@,
                res,
            ) && final(self).store.spec_next_id() == if res is Ok {
                old(self).store.spec_next_id() + 1
            } else {
                old(self).store.spec_next_id()
            }),
    {
        let name = lowercase(task_name);
        match self.request(RemoteOp::PunchIn, &name, 0, 0) {
            Some(req) => Dispatch::Remote(req),
            None => Dispatch::Done(self.store.punch_in(name, now)),
        }
    }

    /// Starts the task `task_name` now. A task of that name in progress is
    /// reported whatever the clock reads; a clock that cannot be read is an
    /// `InternalError`.
    pub fn punch_in(&mut self, task_name: &str) -> (r: Dispatch<i64>)
        requires
            old(self).store.wf(),
        ensures
            final(self).store.wf(),
            final(self).same_session(*old(self)),
            old(self).is_remote() ==> (r matches Dispatch::Remote(req) && old(self).remote_call(
                req,
                RemoteOp::PunchIn,
                lower_of(task_name@),
                0,
                0,
            ) && final(self).store == old(self).store),
            !old(self).is_remote() && has_unfinished(old(self).store@, lower_of(task_name@))
                ==> r == Dispatch::<i64>::Done(Err(PunchTaskError::TaskAlreadyInProgress))
                && final(self).store == old(self).store,
            !old(self).is_remote() && !has_unfinished(old(self).store@, lower_of(task_name@))
                ==> (r matches Dispatch::Done(res) && ((res == Err::<i64, PunchTaskError>(
                PunchTaskError::InternalError) && final(self).store == old(self).store) || exists|
                now: i64,
            |
                punch_in_post(
                    old(self).store@,
                    old(self).store.spec_next_id(),
                    lower_of(task_name@),
                    now,
                    final(self).store@,
                    res,
                ) && final(self).store.spec_next_id() == if res is Ok {
                    old(self).store.spec_next_id() + 1
                } else {
                    old(self).store.spec_next_id()
                })),
    {
        let name = lowercase(task_name);
        match self.request(RemoteOp::PunchIn, &name, 0, 0) {
            Some(req) => Dispatch::Remote(req),
            None => {
                if self.store.find_unfinished(&name).is_some() {
                    return Dispatch::Done(Err(PunchTaskError::TaskAlreadyInProgress));
                }
                match now_secs() {
                    Some(now) => Dispatch::Done(self.store.punch_in(name, now)),
                    None => Dispatch::Done(Err(PunchTaskError::InternalError)),
                }
            },
        }
    }

    /// Finishes the task `task_name` at `now`.
    pub fn punch_out_at(&mut self, task_name: &str, now: i64) -> (r: Dispatch<Task>)
        requires
            old(self).store.wf(),
        ensures
            final(self).store.wf(),
            final(self).same_session(*old(self)),
            final(self).store.spec_next_id() == old(self).store.spec_next_id(),
            old(self).is_remote() ==> (r matches Dispatch::Remote(req) && old(self).remote_call(
                req,
                RemoteOp::PunchOut,
                lower_of(task_name@),
                0,
                0,
            ) && final(self).store == old(self).store),
            !old(self).is_remote() ==> (r matches Dispatch::Done(res) && punch_out_post(
                old(self).store@,
                lower_of(task_name@),
                now,
                final(self).store@,
                res,
            )),
    {
        let name = lowercase(task_name);
        match self.request(RemoteOp::PunchOut, &name, 0, 0) {
            Some(req) => Dispatch::Remote(req),
            None => Dispatch::Done(self.store.punch_out(&name, now)),
        }
    }

    /// Finishes the task `task_name` now. A missing task in progress is
    /// reported whatever the clock reads; a clock that cannot be read is an
    /// `InternalError`.
    pub fn punch_out(&mut self, task_name: &str) -> (r: Dispatch<Task>)
        requires
            old(self).store.wf(),
        ensures
            final(self).store.wf(),
            final(self).same_session(*old(self)),
            final(self).store.spec_next_id() == old(self).store.spec_next_id(),
            old(self).is_remote() ==> (r matches Dispatch::Remote(req) && old(self).remote_call(
                req,
                RemoteOp::PunchOut,
                lower_of(task_name@),
                0,
                0,
            ) && final(self).store == old(self).store),
            !old(self).is_remote() && !has_unfinished(old(self).store@, lower_of(task_name@))
                ==> r == Dispatch::<Task>::Done(Err(PunchTaskError::InProgressTaskNotFound))
                && final(self).store == old(self).store,
            !old(self).is_remote() && has_unfinished(old(self).store@, lower_of(task_name@)) ==> (
            r matches Dispatch::Done(res) && ((res == Err::<Task, PunchTaskError>(
                PunchTaskError::InternalError,
            ) && final(self).store == old(self).store) || exists|now: i64|
                punch_out_post(
                    old(self).store@,
                    lower_of(task_name@),
                    now,
                    final(self).store@,
                    res,
                ))),
    {
        let name = lowercase(task_name);
        match self.request(RemoteOp::PunchOut, &name, 0, 0) {
            Some(req) => Dispatch::Remote(req),
            None => {
                if self.store.find_unfinished(&name).is_none() {
                    return Dispatch::Done(Err(PunchTaskError::InProgressTaskNotFound));
                }
                match now_secs() {
                    Some(now) => Dispatch::Done(self.store.punch_out(&name, now)),
                    None => Dispatch::Done(Err(PunchTaskError::InternalError)),
                }
            },
        }
    }

    /// Discards the task `task_name` that is in progress.
    pub fn cancel(&mut self, task_name: &str) -> (r: Dispatch<()>)
        requires
            old(self).store.wf(),
        ensures
            final(self).store.wf(),
            final(self).same_session(*old(self)),
            final(self).store.spec_next_id() == old(self).store.spec_next_id(),
            old(self).is_remote() ==> (r matches Dispatch::Remote(req) && old(self).remote_call(
                req,
                RemoteOp::Cancel,
                lower_of(task_name@),
                0,
                0,
            ) && final(self).store == old(self).store),
            !old(self).is_remote() ==> (r matches Dispatch::Done(res) && cancel_post(
                old(self).store@,
                lower_of(task_name@),
                final(self).store@,
                res,
            )),
    {
        let name = lowercase(task_name);
        match self.request(RemoteOp::Cancel, &name, 0, 0) {
            Some(req) => Dispatch::Remote(req),
            None => Dispatch::Done(self.store.cancel(&name)),
        }
    }

    /// The time spent on `task_name` within `[since, until]`.
    pub fn get(&self, task_name: &str, since: i64, until: i64) -> (r: Dispatch<TaskStat>)
        requires
            self.store.wf(),
        ensures
            self.is_remote() ==> (r matches Dispatch::Remote(req) && self.remote_call(
                req,
                RemoteOp::Get,
                lower_of(task_name@),
                since,
                until,
            )),
            !self.is_remote() ==> (r matches Dispatch::Done(res) && report_post(
                self.store@,
                lower_of(task_name@),
                since as int,
                until as int,
                until as int,
                res,
            )),
    {
        let name = lowercase(task_name);
        match self.request(RemoteOp::Get, &name, since, until) {
            Some(req) => Dispatch::Remote(req),
            None => Dispatch::Done(self.store.get(&name, since, until)),
        }
    }

    /// One row per distinct task name.
    pub fn list(&self) -> (r: Dispatch<Vec<TaskListItem>>)
        requires
            self.store.wf(),
        ensures
            self.is_remote() ==> (r matches Dispatch::Remote(req) && self.remote_call(
                req,
                RemoteOp::List,
                Seq::<char>::empty(),
                0,
                0,
            )),
            !self.is_remote() ==> (r matches Dispatch::Done(res) && listing_post(self.store@, res)),
    {
        match self.request(RemoteOp::List, &String::new(), 0, 0) {
            Some(req) => Dispatch::Remote(req),
            None => Dispatch::Done(self.store.list()),
        }
    }
}

} // verus!
