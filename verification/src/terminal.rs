//! The embedded terminal's decisions: the events streamed to the frontend,
//! the greeting banner, the PTY size, and whether (and where) kubectl gets a
//! private kubeconfig pinned to the selected context.
use vstd::prelude::*;

use crate::text::{decimal, owned, push_str, push_u64};

verus! {

broadcast use vstd::string::group_string_axioms;

/// Output and lifecycle events streamed to the frontend terminal.
#[derive(Debug, Clone)]
pub enum TerminalEvent {
    /// Raw bytes from the PTY, written verbatim by the terminal widget.
    Output(Vec<u8>),
    /// The shell exited; carries its exit code when known.
    Exit(Option<i32>),
}

/// The banner's body text.
pub open spec fn banner_body(is_remote: bool, context: Option<Seq<char>>) -> Seq<char> {
    if is_remote {
        "KubeFront terminal — remote connection: kubectl is not preconfigured here."@
    } else {
        match context {
            Some(ctx) => "KubeFront terminal — kubectl scoped to context \""@ + ctx + "\"."@,
            None => "KubeFront terminal — no active cluster; kubectl uses your default kubeconfig."@,
        }
    }
}

/// The banner's full text: the body in dim cyan, then a line break.
pub open spec fn banner_text(is_remote: bool, context: Option<Seq<char>>) -> Seq<char> {
    "\x1b[2;36m"@ + banner_body(is_remote, context) + "\x1b[0m\r\n"@
}

/// The one-line greeting written to the terminal before the shell prompt,
/// as UTF-8 bytes.
pub fn banner(is_remote: bool, context: Option<&str>) -> (r: Vec<u8>)
    ensures
        r@ == vstd::utf8::encode_utf8(
            banner_text(
                is_remote,
                match context {
                    Some(c) => Some(c@),
                    None => None,
                },
            ),
        ),
{
    let mut t = owned("\x1b[2;36m");
    if is_remote {
        push_str(&mut t, "KubeFront terminal — remote connection: kubectl is not preconfigured here.");
    } else {
        match context {
            Some(ctx) => {
                push_str(&mut t, "KubeFront terminal — kubectl scoped to context \"");
                push_str(&mut t, ctx);
                push_str(&mut t, "\".");
            },
            None => {
                push_str(
                    &mut t,
                    "KubeFront terminal — no active cluster; kubectl uses your default kubeconfig.",
                );
            },
        }
    }
    push_str(&mut t, "\x1b[0m\r\n");
    let ghost cv = match context {
        Some(c) => Some(c@),
        None => None,
    };
    assert(t@ =~= banner_text(is_remote, cv));
    t.as_str().as_bytes_vec()
}

/// The PTY size for a requested viewport: each side at least one cell.
pub fn pty_dims(cols: u16, rows: u16) -> (r: (u16, u16))
    ensures
        r.0 == (if cols >= 1 { cols } else { 1 }),
        r.1 == (if rows >= 1 { rows } else { 1 }),
{
    let c = if cols >= 1 { cols } else { 1 };
    let r = if rows >= 1 { rows } else { 1 };
    (c, r)
}

/// The file name of the private kubeconfig of terminal `id`.
pub fn scoped_kubeconfig_name(id: u64) -> (r: String)
    ensures
        r@ == "kubefront-term-"@ + decimal(id as nat) + ".yaml"@,
{
    let mut r = owned("kubefront-term-");
    push_u64(&mut r, id);
    push_str(&mut r, ".yaml");
    r
}

/// The kubeconfig that kubectl in a new terminal is pinned to: a private copy
/// of the loaded one, made only for a direct connection with a loaded file
/// (a remote connection has no local kubeconfig to scope).
pub fn kubectl_source(is_remote: bool, kubeconfig_path: Option<&str>) -> (r: Option<&str>)
    ensures
        r == (if is_remote { None } else { kubeconfig_path }),
{
    if is_remote {
        None
    } else {
        kubeconfig_path
    }
}


/// The open terminals' bookkeeping: the id the next terminal gets, and the
/// ids of the terminals that are open. Ids are handed out in order and never
/// twice, so every open id is below the next one and occurs once.
pub struct Terminals {
    next_id: u64,
    open: Vec<u64>,
}

impl Terminals {
    /// The id the next terminal gets.
    pub closed spec fn next(&self) -> nat {
        self.next_id as nat
    }

    /// The ids of the open terminals.
    pub closed spec fn ids(&self) -> Set<u64> {
        self.open@.to_set()
    }

    /// Every open id is below the next one and occurs once.
    pub closed spec fn wf(&self) -> bool {
        &&& self.open@.no_duplicates()
        &&& forall|i: int| 0 <= i < self.open@.len() ==> self.open@[i] < self.next_id
    }

    /// No terminal open yet; the first one gets id 0.
    pub fn new() -> (r: Self)
        ensures
            r.wf(),
            r.next() == 0,
            r.ids() == Set::<u64>::empty(),
    {
        let r = Terminals { next_id: 0, open: Vec::new() };
        assert(r.open@.to_set() =~= Set::<u64>::empty());
        r
    }

    /// Take the id for a terminal about to be opened: the counter as it
    /// stands, which then goes up by one. The open terminals stay as they are.
    pub fn reserve_id(&mut self) -> (id: u64)
        requires
            old(self).wf(),
            old(self).next() < u64::MAX,
        ensures
            final(self).wf(),
            id as nat == old(self).next(),
            final(self).next() == old(self).next() + 1,
            final(self).ids() == old(self).ids(),
            !old(self).ids().contains(id),
    {
        let id = self.next_id;
        self.next_id = self.next_id + 1;
        proof {
            if self.open@.to_set().contains(id) {
                let k = self.open@.index_of(id);
                assert(self.open@[k] < id);
            }
        }
        id
    }

    /// Record the terminal `id` as open, once its shell runs.
    pub fn register(&mut self, id: u64)
        requires
            old(self).wf(),
            (id as nat) < old(self).next(),
            !old(self).ids().contains(id),
        ensures
            final(self).wf(),
            final(self).next() == old(self).next(),
            final(self).ids() == old(self).ids().insert(id),
    {
        let ghost before = self.open@;
        self.open.push(id);
        proof {
            assert(!before.contains(id));
            assert forall|x: u64| self.open@.contains(x) == before.to_set().insert(id).contains(x) by {
                if self.open@.contains(x) {
                    let k = choose|k: int| 0 <= k < self.open@.len() && #[trigger] self.open@[k] == x;
                    if k < before.len() {
                        assert(before[k] == x);
                    }
                }
                if before.contains(x) {
                    let k = choose|k: int| 0 <= k < before.len() && #[trigger] before[k] == x;
                    assert(self.open@[k] == x);
                }
                if x == id {
                    assert(self.open@[before.len() as int] == id);
                }
            }
            assert(self.open@.to_set() =~= before.to_set().insert(id));
        }
    }

    /// Whether the terminal `id` is open (writes and resizes to any other id
    /// are answered "terminal not found").
    pub fn is_open(&self, id: u64) -> (r: bool)
        requires
            self.wf(),
        ensures
            r == self.ids().contains(id),
    {
        let mut i: usize = 0;
        while i < self.open.len()
            invariant
                i <= self.open@.len(),
                forall|j: int| 0 <= j < i ==> self.open@[j] != id,
            decreases self.open@.len() - i,
        {
            if self.open[i] == id {
                proof {
                    assert(self.open@.contains(id));
                }
                return true;
            }
            i += 1;
        }
        proof {
            if self.open@.to_set().contains(id) {
                let k = self.open@.index_of(id);
                assert(self.open@[k] == id);
            }
        }
        false
    }

    /// Forget the terminal `id` when it is closed; closing an id that is not
    /// open changes nothing.
    pub fn close(&mut self, id: u64)
        requires
            old(self).wf(),
        ensures
            final(self).wf(),
            final(self).next() == old(self).next(),
            final(self).ids() == old(self).ids().remove(id),
    {
        let ghost before = self.open@;
        let mut kept: Vec<u64> = Vec::new();
        let mut i: usize = 0;
        while i < self.open.len()
            invariant
                self.open@ == before,
                i <= before.len(),
                before.no_duplicates(),
                kept@.no_duplicates(),
                forall|x: u64|
                    #[trigger] kept@.contains(x) == (before.subrange(0, i as int).contains(x) && x
                        != id),
                forall|k: int| 0 <= k < kept@.len() ==> kept@[k] < self.next_id,
                forall|j: int| 0 <= j < before.len() ==> before[j] < self.next_id,
            decreases before.len() - i,
        {
            let x = self.open[i];
            let ghost prev = kept@;
            let ghost pre = before.subrange(0, i as int);
            let ghost post = before.subrange(0, i + 1);
            proof {
                assert forall|y: u64| post.contains(y) == (pre.contains(y) || y == x) by {
                    if post.contains(y) {
                        let k = choose|k: int| 0 <= k < post.len() && #[trigger] post[k] == y;
                        if k < i {
                            assert(pre[k] == y);
                        }
                    }
                    if pre.contains(y) {
                        let k = choose|k: int| 0 <= k < pre.len() && #[trigger] pre[k] == y;
                        assert(post[k] == y);
                    }
                    if y == x {
                        assert(post[i as int] == y);
                    }
                }
                assert(!pre.contains(x)) by {
                    if pre.contains(x) {
                        let k = choose|k: int| 0 <= k < pre.len() && #[trigger] pre[k] == x;
                        assert(before[k] == before[i as int]);
                    }
                }
            }
            if x != id {
                kept.push(x);
                proof {
                    assert forall|y: u64| #[trigger] kept@.contains(y) == (prev.contains(y) || y == x) by {
                        if kept@.contains(y) {
                            let k = choose|k: int| 0 <= k < kept@.len() && #[trigger] kept@[k] == y;
                            if k < prev.len() {
                                assert(prev[k] == y);
                            }
                        }
                        if prev.contains(y) {
                            let k = choose|k: int| 0 <= k < prev.len() && #[trigger] prev[k] == y;
                            assert(kept@[k] == y);
                        }
                        if y == x {
                            assert(kept@[prev.len() as int] == y);
                        }
                    }
                    assert(!prev.contains(x));
                    assert forall|p: int, q: int|
                        0 <= p < kept@.len() && 0 <= q < kept@.len() && p != q implies kept@[p]
                        != kept@[q] by {
                        if p == prev.len() {
                            assert(prev.contains(kept@[q]));
                        } else if q == prev.len() {
                            assert(prev.contains(kept@[p]));
                        }
                    }
                }
            }
            i += 1;
        }
        proof {
            assert(before.subrange(0, before.len() as int) == before);
            assert forall|x: u64| kept@.contains(x) == before.to_set().remove(id).contains(x) by {}
            assert(kept@.to_set() =~= before.to_set().remove(id));
        }
        self.open = kept;
    }
}

} // verus!
