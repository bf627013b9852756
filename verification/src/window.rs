//! The window shell: one native window's message handling, reduced to the
//! decisions it makes.  A destroy notification is turned into a process-exit
//! request exactly once, however many destroy notifications arrive; every
//! other message is left to the platform's default handling.
//!
//! Two pieces of process-wide bookkeeping live here as well: the one-time
//! registration of the window class, and the registry that maps an opaque
//! window identifier to the shell that owns it, so that a dispatched message
//! reaches its owner without stashing raw pointers.

use vstd::prelude::*;

verus! {

/// A message delivered to a window, reduced to what the shell decides on:
/// the destroy notification, or any other message carried by its numeric
/// identifier.
#[derive(Clone, Copy, PartialEq, Eq, Structural, Debug)]
pub enum WindowMessage {
    Destroy,
    Other(u32),
}

/// What the shell asks the platform to do with a message.
#[derive(Clone, Copy, PartialEq, Eq, Structural, Debug)]
pub enum MessageAction {
    /// Post a process-exit request with this exit code.
    PostQuit(i32),
    /// The message is consumed; nothing further to do.
    Handled,
    /// Hand the message to the platform's default window procedure.
    RunDefault,
}

/// The shell of one window: whether it has already requested process exit,
/// and how many exit requests it has posted.
#[derive(Clone, Copy, PartialEq, Eq, Structural, Debug)]
pub struct WindowShell {
    /// Set once the destroy notification has been answered with an exit
    /// request; later destroy notifications post nothing further.
    pub exit_posted: bool,
    /// How many exit requests this shell has posted.
    pub quit_posts: u64,
}

/// A fresh shell: no exit requested yet.
pub open spec fn shell_start() -> WindowShell {
    WindowShell { exit_posted: false, quit_posts: 0 }
}

/// Validity of a shell state: at most one exit request is ever posted, and
/// exactly one once the destroy notification has been answered.
pub open spec fn shell_wf(s: WindowShell) -> bool {
    s.quit_posts == if s.exit_posted { 1int } else { 0int }
}

/// The shell's transition on one message: the successor state and the action
/// handed to the platform.  The first destroy notification posts an exit
/// request with code 0; any further destroy notification is consumed without
/// posting; any other message runs the default procedure.
pub open spec fn shell_step(s: WindowShell, m: WindowMessage) -> (WindowShell, MessageAction) {
    match m {
        WindowMessage::Destroy => if s.exit_posted {
            (s, MessageAction::Handled)
        } else {
            (
                WindowShell { exit_posted: true, quit_posts: (s.quit_posts + 1) as u64 },
                MessageAction::PostQuit(0),
            )
        },
        WindowMessage::Other(_) => (s, MessageAction::RunDefault),
    }
}

/// The shell after a whole sequence of messages has been handled in order.
pub open spec fn shell_after(s: WindowShell, msgs: Seq<WindowMessage>) -> WindowShell
    decreases msgs.len(),
{
    if msgs.len() == 0 {
        s
    } else {
        shell_after(shell_step(s, msgs[0]).0, msgs.drop_first())
    }
}

/// Whether a message sequence contains a destroy notification.
pub open spec fn contains_destroy(msgs: Seq<WindowMessage>) -> bool {
    exists|i: int| 0 <= i < msgs.len() && msgs[i] is Destroy
}

impl WindowShell {
    /// A fresh shell for a newly created window.
    pub fn new() -> (s: WindowShell)
        ensures
            s == shell_start(),
            shell_wf(s),
    {
        WindowShell { exit_posted: false, quit_posts: 0 }
    }

    /// Handle one message and return the action for the platform.
    pub fn message_handler(&mut self, m: WindowMessage) -> (a: MessageAction)
        requires
            shell_wf(*old(self)),
        ensures
            shell_wf(*final(self)),
            (*final(self), a) == shell_step(*old(self), m),
            // The first destroy notification posts exactly one exit request,
            // with exit code 0.
            (m is Destroy && !old(self).exit_posted) ==> a == MessageAction::PostQuit(0i32)
                && final(self).quit_posts == old(self).quit_posts + 1,
            // A repeated destroy notification posts nothing further.
            (m is Destroy && old(self).exit_posted) ==> a == MessageAction::Handled && *final(self)
                == *old(self),
            // Everything else is left to the default procedure, unchanged.
            m is Other ==> a == MessageAction::RunDefault && *final(self) == *old(self),
    {
        match m {
            WindowMessage::Destroy => {
                if self.exit_posted {
                    MessageAction::Handled
                } else {
                    self.exit_posted = true;
                    self.quit_posts = self.quit_posts + 1;
                    MessageAction::PostQuit(0)
                }
            },
            WindowMessage::Other(_) => MessageAction::RunDefault,
        }
    }
}

/// Helper for the shutdown law: handling a message sequence posts one exit
/// request if the shell had not yet answered a destroy notification and the
/// sequence contains one, and nothing otherwise.
proof fn lemma_shell_after_posts(s: WindowShell, msgs: Seq<WindowMessage>)
    requires
        shell_wf(s),
    ensures
        shell_wf(shell_after(s, msgs)),
        shell_after(s, msgs).exit_posted == (s.exit_posted || contains_destroy(msgs)),
    decreases msgs.len(),
{
    if msgs.len() != 0 {
        let stepped = shell_step(s, msgs[0]).0;
        lemma_shell_after_posts(stepped, msgs.drop_first());
        assert(contains_destroy(msgs.drop_first()) ==> contains_destroy(msgs)) by {
            if contains_destroy(msgs.drop_first()) {
                let i = choose|i: int|
                    0 <= i < msgs.drop_first().len() && msgs.drop_first()[i] is Destroy;
                assert(msgs[i + 1] is Destroy);
            }
        }
        assert(contains_destroy(msgs) && !(msgs[0] is Destroy) ==> contains_destroy(
            msgs.drop_first(),
        )) by {
            if contains_destroy(msgs) && !(msgs[0] is Destroy) {
                let i = choose|i: int| 0 <= i < msgs.len() && msgs[i] is Destroy;
                assert(msgs.drop_first()[i - 1] is Destroy);
            }
        }
    }
}

/// Law (idempotent shutdown): starting from a fresh shell, any message
/// sequence that contains at least one destroy notification — however many —
/// posts exactly one exit request, and a sequence with none posts none.
pub proof fn lemma_idempotent_shutdown(msgs: Seq<WindowMessage>)
    ensures
        shell_after(shell_start(), msgs).quit_posts == if contains_destroy(msgs) {
            1int
        } else {
            0int
        },
{
    lemma_shell_after_posts(shell_start(), msgs);
}

/// The process-wide window-class registration, performed exactly once: the
/// first shell to ask registers the class, every later one finds it already
/// registered and does not register it again.
#[derive(Clone, Copy, PartialEq, Eq, Structural, Debug)]
pub struct ClassRegistrar {
    /// Whether the class has been registered.
    pub registered: bool,
    /// How many registrations have actually been performed.
    pub register_calls: u64,
}

impl ClassRegistrar {
    /// Validity: a registration is performed at most once, and exactly once
    /// as soon as the class is registered.
    pub open spec fn wf(self) -> bool {
        self.register_calls == if self.registered { 1int } else { 0int }
    }

    /// The registrar before any window has been created.
    pub fn new() -> (r: ClassRegistrar)
        ensures
            !r.registered,
            r.register_calls == 0,
            r.wf(),
    {
        ClassRegistrar { registered: false, register_calls: 0 }
    }

    /// Make sure the class is registered.  Returns whether this call
    /// performed the registration; at most one call ever does.
    pub fn ensure_registered(&mut self) -> (performed: bool)
        requires
            old(self).wf(),
        ensures
            final(self).wf(),
            final(self).registered,
            performed == !old(self).registered,
            final(self).register_calls == old(self).register_calls + if old(self).registered {
                0int
            } else {
                1int
            },
    {
        if self.registered {
            false
        } else {
            self.registered = true;
            self.register_calls = self.register_calls + 1;
            true
        }
    }
}

/// The registry that maps an opaque window identifier to the shell that owns
/// it.  The platform hands every message to one shared procedure together
/// with a window identifier; the procedure looks the owner up here instead
/// of stashing a raw pointer in platform-reserved storage.
pub struct WindowRegistry {
    /// Registered windows, each identifier at most once.
    pub entries: Vec<(u64, WindowShell)>,
}

impl WindowRegistry {
    /// The identifiers currently registered, in registration order.
    pub open spec fn ids(self) -> Seq<u64> {
        self.entries@.map(|i: int, e: (u64, WindowShell)| e.0)
    }

    /// Validity: identifiers are unique and every shell is valid.
    pub open spec fn wf(self) -> bool {
        &&& forall|i: int, j: int|
            0 <= i < j < self.entries@.len() ==> self.ids()[i] != self.ids()[j]
        &&& forall|i: int| 0 <= i < self.entries@.len() ==> shell_wf(#[trigger] self.entries@[i].1)
    }

    /// Whether an identifier is registered.
    pub open spec fn spec_contains(self, id: u64) -> bool {
        exists|i: int| 0 <= i < self.entries@.len() && self.entries@[i].0 == id
    }

    /// An empty registry.
    pub fn new() -> (r: WindowRegistry)
        ensures
            r.entries@ == Seq::<(u64, WindowShell)>::empty(),
            r.wf(),
    {
        WindowRegistry { entries: Vec::new() }
    }

    /// Whether an identifier is registered.
    pub fn contains(&self, id: u64) -> (r: bool)
        ensures
            r == self.spec_contains(id),
    {
        let mut k: usize = 0;
        while k < self.entries.len()
            invariant
                0 <= k <= self.entries@.len(),
                forall|i: int| 0 <= i < k ==> self.entries@[i].0 != id,
            decreases self.entries@.len() - k,
        {
            if self.entries[k].0 == id {
                return true;
            }
            k = k + 1;
        }
        false
    }

    /// Register a window's shell under its identifier.  Fails, changing
    /// nothing, when the identifier is already registered.
    pub fn register(&mut self, id: u64, shell: WindowShell) -> (ok: bool)
        requires
            old(self).wf(),
            shell_wf(shell),
        ensures
            final(self).wf(),
            ok == !old(self).spec_contains(id),
            ok ==> final(self).entries@ == old(self).entries@.push((id, shell)),
            !ok ==> *final(self) == *old(self),
            final(self).spec_contains(id),
    {
        if self.contains(id) {
            false
        } else {
            self.entries.push((id, shell));
            assert(self.entries@.last().0 == id);
            assert forall|i: int, j: int| 0 <= i < j < self.entries@.len() implies self.ids()[i]
                != self.ids()[j] by {
                assert(self.entries@[i] == old(self).entries@[i]);
                if j < self.entries@.len() - 1 {
                    assert(self.entries@[j] == old(self).entries@[j]);
                    assert(old(self).ids()[i] != old(self).ids()[j]);
                } else {
                    assert(self.entries@[j].0 == id);
                    assert(!old(self).spec_contains(id));
                    assert(old(self).entries@[i].0 != id);
                }
            }
            true
        }
    }

    /// Dispatch one message to the shell registered under `id`: the model of
    /// the shared window procedure.  Returns the owner's action, or `None`
    /// when no window with this identifier is registered, in which case the
    /// caller runs the default procedure and the registry is unchanged.
    pub fn dispatch(&mut self, id: u64, m: WindowMessage) -> (r: Option<MessageAction>)
        requires
            old(self).wf(),
        ensures
            final(self).wf(),
            final(self).ids() == old(self).ids(),
            r is Some <==> old(self).spec_contains(id),
            !old(self).spec_contains(id) ==> *final(self) == *old(self),
            (exists|i: int|
                0 <= i < old(self).entries@.len() && old(self).entries@[i].0 == id) ==> ({
                let i = choose|i: int|
                    0 <= i < old(self).entries@.len() && old(self).entries@[i].0 == id;
                let (stepped, action) = shell_step(old(self).entries@[i].1, m);
                &&& r == Some(action)
                &&& final(self).entries@ == old(self).entries@.update(i, (id, stepped))
            }),
    {
        let mut k: usize = 0;
        while k < self.entries.len()
            invariant
                old(self).wf(),
                *self == *old(self),
                self.entries@ == old(self).entries@,
                0 <= k <= self.entries@.len(),
                forall|i: int| 0 <= i < k ==> self.entries@[i].0 != id,
            decreases self.entries@.len() - k,
        {
            let ghost old_entries = old(self).entries@;
            let (entry_id, mut shell) = self.entries[k];
            if entry_id == id {
                proof {
                    assert(shell_wf(old(self).entries@[k as int].1));
                }
                let action = shell.message_handler(m);
                self.entries[k] = (id, shell);
                proof {
                    let i = choose|i: int|
                        0 <= i < old_entries.len() && old_entries[i].0 == id;
                    assert(old_entries[k as int].0 == id);
                    assert(i == k as int) by {
                        if i != k as int {
                            assert(old(self).ids()[i] == old(self).ids()[k as int]);
                        }
                    }
                    assert forall|j: int| 0 <= j < self.entries@.len() implies self.ids()[j]
                        == old(self).ids()[j] by {
                        if j != k as int {
                            assert(self.entries@[j] == old(self).entries@[j]);
                        }
                    }
                    assert(self.ids() =~= old(self).ids());
                }
                return Some(action);
            }
            k = k + 1;
        }
        assert(!old(self).spec_contains(id));
        None
    }
}

} // verus!
