//! The clients attached to an editing session, each with its own view.

use vstd::prelude::*;

verus! {

/// Identifies a client of a session.
#[derive(Clone, Copy, Debug, PartialEq, Eq, Hash, Structural)]
pub struct ClientId(pub u64);

/// Commands addressed to a view.
#[derive(Clone, Copy, Debug, PartialEq, Eq, Structural)]
pub enum ViewCommand {
    Nothing,
}

/// Commands a client sends to its session: for the shared editor (of
/// command type `E`) or for its own view.
pub enum SessionCommand<E> {
    Nothing,
    Editor(E),
    View(ViewCommand),
}

/// A session: one editor `E` shared by clients, each with a view `V`.
pub struct Session<E, V> {
    editor: E,
    view: Vec<(ClientId, V)>,
    id_acc: u64,
}

/// The index of the first view of client `id`, or -1 when it has none.
pub open spec fn client_position<V>(s: Seq<(ClientId, V)>, id: ClientId) -> int
    decreases s.len(),
{
    if s.len() == 0 {
        -1
    } else if s[0].0 == id {
        0
    } else {
        let r = client_position(s.drop_first(), id);
        if r < 0 {
            -1
        } else {
            r + 1
        }
    }
}

/// `client_position` is the first index holding `id`.
proof fn lemma_client_position<V>(s: Seq<(ClientId, V)>, id: ClientId, i: int)
    requires
        0 <= i <= s.len(),
        forall|j: int| 0 <= j < i ==> s[j].0 != id,
        i < s.len() ==> s[i].0 == id,
    ensures
        client_position(s, id) == (if i < s.len() {
            i
        } else {
            -1
        }),
    decreases i,
{
    if i > 0 {
        assert forall|j: int| 0 <= j < i - 1 implies s.drop_first()[j].0 != id by {
            assert(s.drop_first()[j] == s[j + 1]);
        }
        if i < s.len() {
            assert(s.drop_first()[i - 1] == s[i]);
        }
        lemma_client_position(s.drop_first(), id, i - 1);
    }
}

/// Client ids distinct and below `next`.
pub open spec fn clients_wf<V>(s: Seq<(ClientId, V)>, next: u64) -> bool {
    &&& forall|i: int, j: int|
        0 <= i < s.len() && 0 <= j < s.len() && i != j ==> #[trigger] s[i].0 != #[trigger] s[j].0
    &&& forall|i: int| 0 <= i < s.len() ==> (#[trigger] s[i]).0.0 < next
}

/// Removing a view keeps client ids distinct and below the counter.
proof fn lemma_remove_keeps_clients<V>(s: Seq<(ClientId, V)>, i: int, next: u64)
    requires
        clients_wf(s, next),
        0 <= i < s.len(),
    ensures
        clients_wf(s.remove(i), next),
{
    s.remove_ensures(i);
    let r = s.remove(i);
    assert forall|a: int, b: int| 0 <= a < r.len() && 0 <= b < r.len() && a != b implies #[trigger] r[a].0
        != #[trigger] r[b].0 by {
        let a2 = if a < i { a } else { a + 1 };
        let b2 = if b < i { b } else { b + 1 };
        assert(r[a] == s[a2]);
        assert(r[b] == s[b2]);
    }
    assert forall|k: int| 0 <= k < r.len() implies (#[trigger] r[k]).0.0 < next by {
        let k2 = if k < i { k } else { k + 1 };
        assert(r[k] == s[k2]);
    }
}

impl<E, V> Session<E, V> {
    /// The clients' views, in the order the clients were created.
    pub closed spec fn views(&self) -> Seq<(ClientId, V)> {
        self.view@
    }

    /// The shared editor.
    pub closed spec fn shared_editor(&self) -> E {
        self.editor
    }

    /// The counter from which the next client id is drawn.
    pub closed spec fn next_client(&self) -> u64 {
        self.id_acc
    }

    /// Client ids are distinct and drawn from the counter.
    pub open spec fn wf(&self) -> bool {
        clients_wf(self.views(), self.next_client())
    }

    /// A session around `editor`, without clients.
    pub fn new(editor: E) -> (s: Self)
        ensures
            s.wf(),
            s.shared_editor() == editor,
            s.views() == Seq::<(ClientId, V)>::empty(),
            s.next_client() == 0,
    {
        Session { editor, view: Vec::new(), id_acc: 0 }
    }

    /// Attaches a client with `view`, under the id drawn from the counter.
    pub fn create_client(&mut self, view: V) -> (id: ClientId)
        requires
            old(self).wf(),
            old(self).next_client() < u64::MAX,
        ensures
            final(self).wf(),
            id == ClientId(old(self).next_client()),
            final(self).views() == old(self).views().push((id, view)),
            final(self).next_client() == old(self).next_client() + 1,
            final(self).shared_editor() == old(self).shared_editor(),
    {
        let id = ClientId(self.id_acc);
        let ghost before = self.view@;
        self.id_acc = self.id_acc + 1;
        self.view.push((id, view));
        proof {
            assert forall|i: int| 0 <= i < before.len() implies #[trigger] self.view@[i] == before[i] by {}
            assert(self.view@[before.len() as int].0 == id);
        }
        id
    }

    /// Detaches client `id` and drops its view; returns whether it was
    /// attached.
    pub fn delete_client(&mut self, id: ClientId) -> (r: bool)
        requires
            old(self).wf(),
        ensures
            final(self).wf(),
            r == (client_position(old(self).views(), id) >= 0),
            r ==> final(self).views() == old(self).views().remove(
                client_position(old(self).views(), id),
            ),
            !r ==> final(self).views() == old(self).views(),
            final(self).next_client() == old(self).next_client(),
            final(self).shared_editor() == old(self).shared_editor(),
    {
        let mut i: usize = 0;
        while i < self.view.len()
            invariant
                i <= self.view.len(),
                self.view@ == old(self).view@,
                clients_wf(self.view@, self.id_acc),
                self.id_acc == old(self).id_acc,
                self.editor == old(self).editor,
                forall|j: int| 0 <= j < i ==> self.view@[j].0 != id,
            decreases self.view.len() - i,
        {
            if self.view[i].0 == id {
                proof {
                    lemma_client_position(self.view@, id, i as int);
                }
                let ghost before = self.view@;
                let _ = self.view.remove(i);
                proof {
                    lemma_remove_keeps_clients(before, i as int, self.id_acc);
                }
                return true;
            }
            i = i + 1;
        }
        proof {
            lemma_client_position(self.view@, id, self.view@.len() as int);
        }
        false
    }
}

/// A client just created is found at the end of the views, and deleting
/// it gives back the views there were.
pub proof fn law_create_then_delete_restores<V>(views: Seq<(ClientId, V)>, next: u64, view: V)
    requires
        clients_wf(views, next),
    ensures
        client_position(views.push((ClientId(next), view)), ClientId(next)) == views.len(),
        views.push((ClientId(next), view)).remove(views.len() as int) == views,
{
    let t = views.push((ClientId(next), view));
    assert forall|j: int| 0 <= j < views.len() implies t[j].0 != ClientId(next) by {
        assert(t[j] == views[j]);
    }
    lemma_client_position(t, ClientId(next), views.len() as int);
    assert(t.remove(views.len() as int) =~= views);
}

/// Once deleted, a client is not found any more: a second delete of the
/// same id reports that it was not attached.
pub proof fn law_deleted_client_is_gone<V>(views: Seq<(ClientId, V)>, next: u64, id: ClientId)
    requires
        clients_wf(views, next),
        client_position(views, id) >= 0,
    ensures
        client_position(views.remove(client_position(views, id)), id) == -1,
{
    let p = client_position(views, id);
    lemma_client_position_found(views, id);
    let r = views.remove(p);
    views.remove_ensures(p);
    assert forall|j: int| 0 <= j < r.len() implies r[j].0 != id by {
        let j2 = if j < p { j } else { j + 1 };
        assert(r[j] == views[j2]);
    }
    lemma_client_position(r, id, r.len() as int);
}

/// A non-negative position holds the client.
proof fn lemma_client_position_found<V>(s: Seq<(ClientId, V)>, id: ClientId)
    requires
        client_position(s, id) >= 0,
    ensures
        client_position(s, id) < s.len(),
        s[client_position(s, id)].0 == id,
    decreases s.len(),
{
    if s.len() > 0 && s[0].0 != id {
        lemma_client_position_found(s.drop_first(), id);
        assert(s.drop_first()[client_position(s.drop_first(), id)] == s[client_position(s, id)]);
    }
}

} // verus!
