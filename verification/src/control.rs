//! The control plane's side of the pipeline: the cancellation channel and the
//! session controller.
//!
//! A session worker is stopped cooperatively: the controller sends one stop
//! message on the session's channel, and the worker notices it at the top of
//! its loop. Replacing a session is strictly sequential: signal the old
//! worker, join it, and only then spawn the new one. The controller here
//! decides that order; performing the thread operations is the host's work.

use crate::session::SessionMode;
use vstd::prelude::*;

verus! {

/// A message on the cancellation channel; `quit` asks the session to stop.
#[derive(Clone, Copy, PartialEq, Eq, Structural, Debug)]
pub struct ThreadMsg {
    pub quit: bool,
}

impl ThreadMsg {
    /// The one message the protocol sends: a stop request.
    pub fn stop() -> (m: ThreadMsg)
        ensures
            m == (ThreadMsg { quit: true }),
    {
        ThreadMsg { quit: true }
    }
}

/// A control-plane request: the overlay text the next session should render.
/// An empty text selects remux-only mode.
pub struct OSDReq {
    pub osd: String,
}

impl OSDReq {
    pub fn new(osd: String) -> (r: OSDReq)
        ensures
            r.osd == osd,
    {
        OSDReq { osd }
    }

    /// The mode a request selects: an empty overlay string asks for plain
    /// remuxing, any text for the transform path with that literal text.
    pub fn mode(&self) -> (m: SessionMode)
        ensures
            m == (if self.osd@.len() == 0 {
                SessionMode::Remux
            } else {
                SessionMode::Transform
            }),
    {
        if self.osd.as_str().is_empty() {
            SessionMode::Remux
        } else {
            SessionMode::Transform
        }
    }
}

/// Declares crossbeam_channel::Sender so that it can stand in signatures
/// and fields; the value is opaque to the verifier.
#[verifier::external_type_specification]
#[verifier::external_body]
#[verifier::reject_recursive_types(T)]
pub struct ExSender<T>(crossbeam_channel::Sender<T>);

/// Declares crossbeam_channel::Receiver, likewise opaque.
#[verifier::external_type_specification]
#[verifier::external_body]
#[verifier::reject_recursive_types(T)]
pub struct ExReceiver<T>(crossbeam_channel::Receiver<T>);

/// Relies on crossbeam_channel::unbounded: a connected sender/receiver pair
/// for an unbounded queue. The handles are opaque; nothing further is
/// promised.
#[verifier::external_body]
fn channel_pair() -> (crossbeam_channel::Sender<ThreadMsg>, crossbeam_channel::Receiver<ThreadMsg>) {
    crossbeam_channel::unbounded()
}

/// Relies on crossbeam_channel::Receiver::try_recv: non-blocking; yields a
/// queued message or nothing. Which outcome comes back depends on other
/// threads, so nothing is promised of it.
#[verifier::external_body]
pub(crate) fn try_recv_msg(rx: &crossbeam_channel::Receiver<ThreadMsg>) -> Option<ThreadMsg> {
    match rx.try_recv() {
        Ok(m) => Some(m),
        Err(_) => None,
    }
}

/// Relies on crossbeam_channel::Sender::send: never blocks on an unbounded
/// channel; fails only once every receiver is dropped. Whether that has
/// happened depends on other threads, so nothing is promised of the result.
#[verifier::external_body]
fn send_msg(tx: &crossbeam_channel::Sender<ThreadMsg>, m: ThreadMsg) -> bool {
    tx.send(m).is_ok()
}

/// Relies on crossbeam_channel::Sender::clone: another handle to the same
/// channel.
#[verifier::external_body]
fn clone_sender(tx: &crossbeam_channel::Sender<ThreadMsg>) -> crossbeam_channel::Sender<ThreadMsg> {
    tx.clone()
}

/// Relies on crossbeam_channel::Receiver::clone: another handle to the same
/// channel.
#[verifier::external_body]
fn clone_receiver(
    rx: &crossbeam_channel::Receiver<ThreadMsg>,
) -> crossbeam_channel::Receiver<ThreadMsg> {
    rx.clone()
}

/// The cancellation channel as the host holds it: the sending side stays with
/// the controller, the receiving side is handed to each session worker.
pub struct ThreadChannel {
    pub tx: crossbeam_channel::Sender<ThreadMsg>,
    pub rx: crossbeam_channel::Receiver<ThreadMsg>,
}

impl ThreadChannel {
    pub fn new() -> ThreadChannel {
        let (tx, rx) = channel_pair();
        ThreadChannel { tx, rx }
    }

    /// Another pair of handles onto the same channel, for a worker to carry.
    pub fn duplicate(&self) -> ThreadChannel {
        ThreadChannel { tx: clone_sender(&self.tx), rx: clone_receiver(&self.rx) }
    }

    /// Sends one stop request — the message `ThreadMsg::stop` fixes. Sending
    /// to a session that is already stopping is harmless: the worker reads at
    /// most one message per loop turn and stops at the first `quit`.
    pub fn request_stop(&self) -> bool {
        send_msg(&self.tx, ThreadMsg::stop())
    }
}

// --- The session controller ---

/// One thread operation the controller asks the host to perform, in order.
/// The identifier names the worker it concerns.
#[derive(Clone, Copy, PartialEq, Eq, Structural, Debug)]
pub enum ControlAction {
    /// Send a stop request on the worker's cancellation channel.
    SignalStop(u64),
    /// Block until that worker reports Terminated.
    Join(u64),
    /// Dispatch a new worker under this identifier.
    Spawn(u64),
}

/// What a start must do, given the currently active worker: stop and join it
/// first when there is one, then — and only then — spawn the replacement.
pub open spec fn start_actions_spec(active: Option<u64>, new_id: u64) -> Seq<ControlAction> {
    match active {
        Some(i) => seq![
            ControlAction::SignalStop(i),
            ControlAction::Join(i),
            ControlAction::Spawn(new_id),
        ],
        None => seq![ControlAction::Spawn(new_id)],
    }
}

/// What a plain stop must do: stop and join the active worker, spawn nothing.
pub open spec fn stop_actions_spec(active: Option<u64>) -> Seq<ControlAction> {
    match active {
        Some(i) => seq![ControlAction::SignalStop(i), ControlAction::Join(i)],
        None => Seq::empty(),
    }
}

/// The controller's book-keeping: at most one active worker, by construction,
/// and a counter for fresh worker identifiers.
pub struct SessionController {
    pub active: Option<u64>,
    pub next_id: u64,
}

impl SessionController {
    pub fn new() -> (r: SessionController)
        ensures
            r.active is None,
            r.next_id == 0,
    {
        SessionController { active: None, next_id: 0 }
    }

    /// Decides the thread operations for a start request and records the new
    /// worker as the single active one. The host performs the returned
    /// actions in order before anything else touches the output.
    pub fn start(&mut self) -> (acts: Vec<ControlAction>)
        requires
            old(self).next_id < u64::MAX,
        ensures
            acts@ == start_actions_spec(old(self).active, old(self).next_id),
            final(self).active == Some(old(self).next_id),
            final(self).next_id == old(self).next_id + 1,
    {
        let new_id = self.next_id;
        let mut acts: Vec<ControlAction> = Vec::new();
        match self.active {
            Some(i) => {
                acts.push(ControlAction::SignalStop(i));
                acts.push(ControlAction::Join(i));
                acts.push(ControlAction::Spawn(new_id));
                proof {
                    assert(acts@ =~= start_actions_spec(old(self).active, new_id));
                }
            },
            None => {
                acts.push(ControlAction::Spawn(new_id));
                proof {
                    assert(acts@ =~= start_actions_spec(old(self).active, new_id));
                }
            },
        }
        self.active = Some(new_id);
        self.next_id = new_id + 1;
        acts
    }

    /// Decides the thread operations for a stop-only request and records that
    /// nothing is active.
    pub fn stop(&mut self) -> (acts: Vec<ControlAction>)
        ensures
            acts@ == stop_actions_spec(old(self).active),
            final(self).active is None,
            final(self).next_id == old(self).next_id,
    {
        let mut acts: Vec<ControlAction> = Vec::new();
        match self.active {
            Some(i) => {
                acts.push(ControlAction::SignalStop(i));
                acts.push(ControlAction::Join(i));
                proof {
                    assert(acts@ =~= stop_actions_spec(old(self).active));
                }
            },
            None => {
                proof {
                    assert(acts@ =~= stop_actions_spec(old(self).active));
                }
            },
        }
        self.active = None;
        acts
    }
}

/// Sequential hot-swap: in the actions of any start, spawning the new worker
/// comes last, there is exactly one spawn, and when a worker was active its
/// stop and join strictly precede the spawn. Since joining blocks until the
/// old session is Terminated, the old session's termination strictly precedes
/// the new session's first write.
pub proof fn lemma_swap_is_sequential(active: Option<u64>, new_id: u64)
    ensures
        ({
            let acts = start_actions_spec(active, new_id);
            acts.len() >= 1 && acts.last() == ControlAction::Spawn(new_id) && (forall|k: int|
                0 <= k < acts.len() - 1 ==> !(acts[k] is Spawn)) && (match active {
                Some(i) => acts[0] == ControlAction::SignalStop(i) && acts[1]
                    == ControlAction::Join(i),
                None => acts.len() == 1,
            })
        }),
{
}

} // verus!
