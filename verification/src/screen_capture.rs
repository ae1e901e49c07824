//! Termination reporting of the fake screen capture source used in tests:
//! each stream started with a termination callback hears exactly one
//! terminal status at most: the first of finishing, being replaced by a
//! newer stream, or being dropped.

use vstd::prelude::*;

verus! {

/// How a screen capture stream ended.
#[derive(Clone, Debug, PartialEq, Eq)]
pub enum ScreenCaptureStreamTermination {
    /// The stream ran to its end.
    Ended,
    /// The stream was stopped by its owner or replaced.
    Cancelled,
    /// The stream failed, with a description.
    Failed(String),
}

/// The ScreenCaptureKit error code of a stream stopped by the user
/// (`SCStreamErrorUserStopped`).
pub const SC_STREAM_ERROR_USER_STOPPED: i64 = -3817;

/// The termination of a stream that stopped with an error: a stop by the
/// user is a cancellation; any other error is a failure with its
/// description.
pub fn stream_termination_from_error(error_code: i64, description: String) -> (r:
    ScreenCaptureStreamTermination)
    ensures
        error_code == SC_STREAM_ERROR_USER_STOPPED ==> r == ScreenCaptureStreamTermination::Cancelled,
        error_code != SC_STREAM_ERROR_USER_STOPPED ==> r == ScreenCaptureStreamTermination::Failed(
            description,
        ),
{
    if error_code == SC_STREAM_ERROR_USER_STOPPED {
        ScreenCaptureStreamTermination::Cancelled
    } else {
        ScreenCaptureStreamTermination::Failed(description)
    }
}

/// The fake stream handed out by a source started without a termination
/// callback.
#[derive(Clone, Copy, Debug, PartialEq, Eq, Structural)]
pub struct TestScreenCaptureStream {}

/// Whether `j` is the active stream.
pub open spec fn is_active(active: Option<usize>, j: int) -> bool {
    match active {
        Some(a) => a as int == j,
        None => false,
    }
}

/// The termination callbacks of the streams of one source: whether each
/// stream's callback is still waiting for its terminal status, and which
/// stream is the active one.
pub struct TerminationTracker {
    waiting: Vec<bool>,
    active: Option<usize>,
    delivered: Ghost<Seq<nat>>,
}

impl TerminationTracker {
    /// Whether the callback of stream `k` has not been called yet.
    pub closed spec fn is_waiting(&self, k: int) -> bool {
        self.waiting@[k]
    }

    /// The number of streams started with a callback.
    pub closed spec fn stream_count(&self) -> nat {
        self.waiting@.len()
    }

    /// The stream whose termination `finish_stream` reports.
    pub closed spec fn active_stream(&self) -> Option<usize> {
        self.active
    }

    /// How many terminal statuses the callback of stream `k` has heard.
    pub closed spec fn deliveries(&self, k: int) -> nat {
        self.delivered@[k]
    }

    /// The active stream is one of the streams, and each callback has heard
    /// one terminal status if it no longer waits, none if it still does.
    pub closed spec fn wf(&self) -> bool {
        &&& self.active matches Some(a) ==> a < self.waiting@.len()
        &&& self.delivered@.len() == self.waiting@.len()
        &&& forall|k: int|
            0 <= k < self.waiting@.len() ==> #[trigger] self.delivered@[k] == (if self.waiting@[k] {
                0nat
            } else {
                1nat
            })
    }

    /// No stream has been started.
    pub fn new() -> (r: Self)
        ensures
            r.wf(),
            r.stream_count() == 0,
            r.active_stream() is None,
    {
        TerminationTracker { waiting: Vec::new(), active: None, delivered: Ghost(Seq::empty()) }
    }

    /// Marks the callback of stream `k` as called, if it was waiting;
    /// returns whether the terminal status is delivered now.
    fn notify(&mut self, k: usize) -> (r: bool)
        requires
            old(self).wf(),
            k < old(self).stream_count(),
        ensures
            final(self).wf(),
            r == old(self).is_waiting(k as int),
            !final(self).is_waiting(k as int),
            final(self).stream_count() == old(self).stream_count(),
            final(self).active_stream() == old(self).active_stream(),
            forall|j: int|
                0 <= j < old(self).stream_count() && j != k ==> final(self).is_waiting(j) == old(
                    self,
                ).is_waiting(j),
            counts_deliveries(old(self), final(self), if r { set![k as int] } else { set![] }),
    {
        let was_waiting = self.waiting[k];
        self.waiting.set(k, false);
        proof {
            if was_waiting {
                self.delivered@ = self.delivered@.update(k as int, 1nat);
            }
        }
        was_waiting
    }

    /// Starts a stream with a termination callback; it becomes the active
    /// stream. Returns the new stream, and the previously active stream when
    /// it hears `Cancelled` now.
    pub fn start_stream(&mut self) -> (r: (usize, Option<usize>))
        requires
            old(self).wf(),
            old(self).stream_count() < usize::MAX,
        ensures
            final(self).wf(),
            r.0 == old(self).stream_count(),
            final(self).stream_count() == old(self).stream_count() + 1,
            final(self).is_waiting(r.0 as int),
            final(self).deliveries(r.0 as int) == 0,
            final(self).active_stream() == Some(r.0),
            counts_deliveries(
                old(self),
                final(self),
                match r.1 {
                    Some(p) => set![p as int],
                    None => set![],
                },
            ),
            waiting_only_shrinks(old(self), final(self)),
            r.1 is Some <==> (old(self).active_stream() matches Some(a) && old(self).is_waiting(
                a as int,
            )),
            r.1 matches Some(a) ==> old(self).active_stream() == Some(a),
            forall|j: int|
                0 <= j < old(self).stream_count() ==> final(self).is_waiting(j) == (old(
                    self,
                ).is_waiting(j) && !is_active(old(self).active_stream(), j)),
    {
        let stream = self.waiting.len();
        self.waiting.push(true);
        proof {
            self.delivered@ = self.delivered@.push(0nat);
        }
        let previous = self.active;
        self.active = Some(stream);
        match previous {
            Some(p) => {
                if self.notify(p) {
                    (stream, Some(p))
                } else {
                    (stream, None)
                }
            },
            None => (stream, None),
        }
    }

    /// Completes the active stream: it stops being active, and returns the
    /// stream that hears the terminal status now, if its callback was still
    /// waiting.
    pub fn finish_stream(&mut self) -> (r: Option<usize>)
        requires
            old(self).wf(),
        ensures
            final(self).wf(),
            final(self).active_stream() is None,
            final(self).stream_count() == old(self).stream_count(),
            counts_deliveries(
                old(self),
                final(self),
                match r {
                    Some(p) => set![p as int],
                    None => set![],
                },
            ),
            waiting_only_shrinks(old(self), final(self)),
            r is Some <==> (old(self).active_stream() matches Some(a) && old(self).is_waiting(
                a as int,
            )),
            r matches Some(a) ==> old(self).active_stream() == Some(a),
            forall|j: int|
                0 <= j < old(self).stream_count() ==> final(self).is_waiting(j) == (old(
                    self,
                ).is_waiting(j) && !is_active(old(self).active_stream(), j)),
    {
        let active = self.active;
        self.active = None;
        match active {
            Some(a) => {
                if self.notify(a) {
                    Some(a)
                } else {
                    None
                }
            },
            None => None,
        }
    }

    /// Drops stream `k`: it hears `Cancelled` now when its callback was still
    /// waiting.
    pub fn drop_stream(&mut self, k: usize) -> (r: bool)
        requires
            old(self).wf(),
            k < old(self).stream_count(),
        ensures
            final(self).wf(),
            r == old(self).is_waiting(k as int),
            final(self).stream_count() == old(self).stream_count(),
            final(self).active_stream() == old(self).active_stream(),
            waiting_only_shrinks(old(self), final(self)),
            counts_deliveries(old(self), final(self), if r { set![k as int] } else { set![] }),
            forall|j: int|
                0 <= j < old(self).stream_count() ==> final(self).is_waiting(j) == (old(
                    self,
                ).is_waiting(j) && j != k),
    {
        self.notify(k)
    }
}

/// From `a` to `b` the callback of each stream of `a` heard one terminal
/// status more where it is in `now`, and none otherwise.
pub open spec fn counts_deliveries(
    a: &TerminationTracker,
    b: &TerminationTracker,
    now: Set<int>,
) -> bool {
    forall|j: int|
        0 <= j < a.stream_count() ==> #[trigger] b.deliveries(j) == a.deliveries(j) + (if now.contains(j) {
            1nat
        } else {
            0nat
        })
}

/// However the operations of a tracker are sequenced, each stream's
/// callback hears at most one terminal status: every operation keeps the
/// tracker well formed and counts what it delivers, and a well-formed
/// tracker has delivered at most once to each stream, and never to one that
/// still waits.
pub proof fn lemma_terminal_status_at_most_once(t: &TerminationTracker, k: int)
    requires
        t.wf(),
        0 <= k < t.stream_count(),
    ensures
        t.deliveries(k) <= 1,
        t.is_waiting(k) ==> t.deliveries(k) == 0,
{
}

/// From `a` to `b` no stream's callback starts waiting again.
pub open spec fn waiting_only_shrinks(a: &TerminationTracker, b: &TerminationTracker) -> bool {
    &&& a.stream_count() <= b.stream_count()
    &&& forall|j: int| 0 <= j < a.stream_count() ==> b.is_waiting(j) ==> a.is_waiting(j)
}

/// Every operation of the tracker only ever stops callbacks from waiting,
/// so a stream that has heard its terminal status never hears another:
/// along any sequence of operations, a callback that is not waiting stays
/// so.
pub proof fn lemma_terminal_status_heard_once(
    a: &TerminationTracker,
    b: &TerminationTracker,
    c: &TerminationTracker,
    k: int,
)
    requires
        0 <= k < a.stream_count(),
        !a.is_waiting(k),
        waiting_only_shrinks(a, b),
        waiting_only_shrinks(b, c),
    ensures
        !c.is_waiting(k),
        waiting_only_shrinks(a, c),
{
}

/// What the screen list of the system says of one screen, in its order:
/// its display number when its device description has one, and its
/// localized name when it has one.
#[derive(Clone, Debug)]
pub struct ScreenDescription {
    pub display_id: Option<u32>,
    pub name: Option<String>,
}

/// The human label of a display, and whether it is the screen with the
/// menu bar (the first of the list).
#[derive(Clone, Debug, PartialEq, Eq)]
pub struct ScreenMeta {
    pub label: String,
    pub is_main: bool,
}

/// Whether screen `i` of the list labels display `id`.
pub open spec fn labels_display(screens: Seq<ScreenDescription>, i: int, id: u32) -> bool {
    screens[i].display_id == Some(id) && screens[i].name is Some
}

/// The label of a display: from the last named screen with its number; the
/// first screen of the list is the main one.
pub fn screen_meta_for_display(screens: &Vec<ScreenDescription>, display_id: u32) -> (r: Option<ScreenMeta>)
    ensures
        r is None <==> forall|i: int| 0 <= i < screens@.len() ==> !labels_display(screens@, i, display_id),
        r matches Some(m) ==> exists|i: int|
            0 <= i < screens@.len() && #[trigger] labels_display(screens@, i, display_id) && m.label@
                == screens@[i].name->0@ && m.is_main == (i == 0) && forall|j: int|
                i < j < screens@.len() ==> !labels_display(screens@, j, display_id),
{
    let mut found: Option<ScreenMeta> = None;
    let ghost mut at: int = -1;
    let mut i: usize = 0;
    while i < screens.len()
        invariant
            i <= screens@.len(),
            found is None <==> forall|j: int| 0 <= j < i ==> !labels_display(screens@, j, display_id),
            found matches Some(m) ==> 0 <= at < i && labels_display(screens@, at, display_id) && m.label@
                == screens@[at].name->0@ && m.is_main == (at == 0) && forall|j: int|
                at < j < i ==> !labels_display(screens@, j, display_id),
        decreases screens@.len() - i,
    {
        let screen = &screens[i];
        if screen.display_id == Some(display_id) {
            match &screen.name {
                Some(name) => {
                    found = Some(ScreenMeta { label: name.clone(), is_main: i == 0 });
                    proof {
                        at = i as int;
                    }
                },
                None => {},
            }
        }
        proof {
            if found is Some {
                assert(labels_display(screens@, at, display_id));
            }
        }
        i = i + 1;
    }
    found
}

/// What a capture source tells of itself.
#[derive(Clone, Debug, PartialEq, Eq)]
pub struct SourceMetadata {
    pub id: u64,
    pub label: Option<String>,
    pub is_main: Option<bool>,
    /// The width of the display mode in device pixels.
    pub width: i32,
    /// The height of the display mode in device pixels.
    pub height: i32,
}

/// The metadata of a display source: its display number, its label and
/// main flag when it has a label, and the pixel size of its display mode.
pub fn source_metadata(display_id: u32, width: usize, height: usize, meta: Option<ScreenMeta>) -> (r:
    SourceMetadata)
    ensures
        r.id == display_id,
        r.width == width as i32,
        r.height == height as i32,
        meta is None ==> r.label is None && r.is_main is None,
        meta matches Some(m) ==> r.label == Some(m.label) && r.is_main == Some(m.is_main),
{
    let (label, is_main) = match meta {
        Some(m) => (Some(m.label), Some(m.is_main)),
        None => (None, None),
    };
    SourceMetadata {
        id: display_id as u64,
        label,
        is_main,
        width: width as i32,
        height: height as i32,
    }
}

/// `SCStreamErrorUserStopped` is the ScreenCaptureKit error code -3817.
pub proof fn law_screen_capture_constants()
    ensures
        SC_STREAM_ERROR_USER_STOPPED == -3817,
{
}

} // verus!
