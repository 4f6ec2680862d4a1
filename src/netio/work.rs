use vstd::prelude::*;

use crate::config::config_json::{listen_mode, ConfigJson};
use crate::config::local_json::LocalJson;

verus! {

/// What a worker must do with its listening socket after a client-mode update.
#[derive(Clone, Copy, Debug, PartialEq, Eq, Structural)]
pub enum ListenerAction {
    /// Bind a listener on the service port.
    Bind,
    /// Drop the listener that exists.
    Release,
    /// Leave the listener slot as it is.
    Keep,
}

/// Whether a listener exists after an update, and the action that gets it there, given
/// whether one existed before and whether the new mode is the listening one.
pub open spec fn listener_step(listening: bool, listen: bool) -> (bool, ListenerAction) {
    if !listen {
        (false, if listening { ListenerAction::Release } else { ListenerAction::Keep })
    } else if !listening {
        (true, ListenerAction::Bind)
    } else {
        (true, ListenerAction::Keep)
    }
}

/// A worker's own configuration snapshots and the presence of its listener.
pub struct Work {
    pub _thread_id: usize,
    pub thread_local_json: Option<LocalJson>,
    pub thread_config_json: Option<ConfigJson>,
    /// Whether the worker holds a listening socket.
    pub listening: bool,
}

impl Work {
    pub fn new(id: usize) -> (r: Self)
        ensures
            r._thread_id == id,
            r.thread_local_json is None,
            r.thread_config_json is None,
            !r.listening,
    {
        Work { _thread_id: id, thread_local_json: None, thread_config_json: None, listening: false }
    }

    /// Replaces the local snapshot.
    pub fn update_local(&mut self, local_json: LocalJson)
        ensures
            final(self).thread_local_json == Some(local_json),
            final(self)._thread_id == old(self)._thread_id,
            final(self).thread_config_json == old(self).thread_config_json,
            final(self).listening == old(self).listening,
    {
        self.thread_local_json = Some(local_json);
    }

    /// Applies a client-mode snapshot: a non-listening mode is recorded and drops any
    /// listener; the listening mode is recorded and binds when no listener exists, and
    /// is ignored when one does.
    pub fn update_config(&mut self, new_config_json: ConfigJson) -> (r: ListenerAction)
        ensures
            (final(self).listening, r) == listener_step(
                old(self).listening,
                listen_mode(new_config_json.client_mode@),
            ),
            final(self).thread_config_json == if r == ListenerAction::Keep && old(self).listening {
                old(self).thread_config_json
            } else {
                Some(new_config_json)
            },
            final(self)._thread_id == old(self)._thread_id,
            final(self).thread_local_json == old(self).thread_local_json,
    {
        if !new_config_json.is_listen_mode() {
            let action = if self.listening { ListenerAction::Release } else { ListenerAction::Keep };
            self.thread_config_json = Some(new_config_json);
            self.listening = false;
            return action;
        }
        if !self.listening {
            self.thread_config_json = Some(new_config_json);
            self.listening = true;
            return ListenerAction::Bind;
        }
        ListenerAction::Keep
    }
}

/// Applying the listening mode twice binds exactly once, the second update leaving the
/// listener in place; a non-listening mode while listening releases the listener; the
/// listening mode after that binds again.
pub proof fn lemma_listener_idempotent(listening: bool)
    ensures
        !listening ==> listener_step(listening, true) == (true, ListenerAction::Bind),
        listener_step(listener_step(listening, true).0, true) == (true, ListenerAction::Keep),
        listener_step(true, false) == (false, ListenerAction::Release),
        listener_step(listener_step(true, false).0, true) == (true, ListenerAction::Bind),
{
}

} // verus!
