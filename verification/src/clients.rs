//! The subscribers to live monitor updates, and the pruning of those that
//! stopped answering.

use vstd::prelude::*;

verus! {

/// The clients of `clients` whose entry in `responsive` is true, in their
/// order.
pub open spec fn responsive_only<C>(clients: Seq<C>, responsive: Seq<bool>) -> Seq<C>
    decreases clients.len(),
{
    if clients.len() == 0 {
        Seq::empty()
    } else {
        let kept = responsive_only(clients.drop_last(), responsive.drop_last());
        if responsive.last() {
            kept.push(clients.last())
        } else {
            kept
        }
    }
}

/// How many entries of `flags` are true.
pub open spec fn count_true(flags: Seq<bool>) -> nat
    decreases flags.len(),
{
    if flags.len() == 0 {
        0
    } else {
        count_true(flags.drop_last()) + (if flags.last() {
            1nat
        } else {
            0nat
        })
    }
}

/// The subscribers to live updates, in the order they registered.
pub struct ClientList<C> {
    clients: Vec<C>,
}

impl<C> View for ClientList<C> {
    type V = Seq<C>;

    closed spec fn view(&self) -> Seq<C> {
        self.clients@
    }
}

impl<C> ClientList<C> {
    /// A list with no subscriber.
    pub fn new() -> (list: Self)
        ensures
            list@ == Seq::<C>::empty(),
    {
        ClientList { clients: Vec::new() }
    }

    /// Adds a subscriber after the others.
    pub fn register(&mut self, client: C)
        ensures
            final(self)@ == old(self)@.push(client),
    {
        self.clients.push(client);
    }

    /// The subscribers, in order.
    pub fn clients(&self) -> (clients: &Vec<C>)
        ensures
            clients@ == self@,
    {
        &self.clients
    }

    /// How many subscribers there are.
    pub fn len(&self) -> (count: usize)
        ensures
            count == self@.len(),
    {
        self.clients.len()
    }

    /// Removes the subscribers that did not answer the last ping. The ping
    /// went to the first `responsive.len()` subscribers (a snapshot taken
    /// earlier; later ones were registered after it): of those, the ones
    /// whose flag is false leave, and every subscriber after them stays.
    pub fn prune(&mut self, responsive: &Vec<bool>)
        requires
            responsive.len() <= old(self)@.len(),
        ensures
            final(self)@ == responsive_only(old(self)@.take(responsive.len() as int), responsive@)
                + old(self)@.skip(responsive.len() as int),
    {
        let n = responsive.len();
        let mut all: Vec<C> = Vec::new();
        std::mem::swap(&mut all, &mut self.clients);
        let ghost whole = all@;
        let mut later = all.split_off(n);
        assert(all@ =~= whole.take(n as int));
        assert(later@ =~= whole.skip(n as int));
        let mut kept = keep_responsive(all, responsive);
        kept.append(&mut later);
        self.clients = kept;
    }
}

/// Keeps the clients of a snapshot that answered the last ping
/// (`responsive[k]` for the client at `k`), in their order.
pub fn keep_responsive<C>(snapshot: Vec<C>, responsive: &Vec<bool>) -> (kept: Vec<C>)
    requires
        snapshot.len() == responsive.len(),
    ensures
        kept@ == responsive_only(snapshot@, responsive@),
{
    let ghost original = snapshot@;
    let n = responsive.len();
    let mut rest = snapshot;
    let mut kept: Vec<C> = Vec::new();
    let mut i: usize = 0;
    assert(original.skip(0) =~= original);
    assert(original.take(0) =~= Seq::<C>::empty());
    while i < n
        invariant
            n == responsive.len(),
            n == original.len(),
            i <= n,
            rest@ == original.skip(i as int),
            kept@ == responsive_only(original.take(i as int), responsive@.take(i as int)),
        decreases n - i,
    {
        let client = rest.remove(0);
        assert(client == original[i as int]);
        assert(rest@ =~= original.skip(i + 1));
        assert(original.take(i + 1).drop_last() =~= original.take(i as int));
        assert(responsive@.take(i + 1).drop_last() =~= responsive@.take(i as int));
        if responsive[i] {
            kept.push(client);
        }
        i = i + 1;
    }
    assert(original.take(n as int) =~= original);
    assert(responsive@.take(n as int) =~= responsive@);
    kept
}

/// Pruning keeps exactly as many clients as answered the ping.
pub proof fn lemma_kept_count<C>(clients: Seq<C>, responsive: Seq<bool>)
    requires
        clients.len() == responsive.len(),
    ensures
        responsive_only(clients, responsive).len() == count_true(responsive),
    decreases clients.len(),
{
    if clients.len() > 0 {
        lemma_kept_count(clients.drop_last(), responsive.drop_last());
    }
}

/// Every kept client is a client of the snapshot that answered the ping.
pub proof fn lemma_kept_answered<C>(clients: Seq<C>, responsive: Seq<bool>)
    requires
        clients.len() == responsive.len(),
    ensures
        forall|k: int|
            0 <= k < responsive_only(clients, responsive).len() ==> exists|j: int|
                0 <= j < clients.len() && responsive[j] && clients[j] == #[trigger] responsive_only(
                    clients,
                    responsive,
                )[k],
    decreases clients.len(),
{
    if clients.len() > 0 {
        let c0 = clients.drop_last();
        let r0 = responsive.drop_last();
        lemma_kept_answered(c0, r0);
        let kept = responsive_only(clients, responsive);
        assert forall|k: int| 0 <= k < kept.len() implies exists|j: int|
            0 <= j < clients.len() && responsive[j] && clients[j] == #[trigger] kept[k] by {
            if k < responsive_only(c0, r0).len() {
                let j = choose|j: int|
                    0 <= j < c0.len() && r0[j] && c0[j] == #[trigger] responsive_only(c0, r0)[k];
                assert(clients[j] == c0[j]);
                assert(responsive[j] == r0[j]);
            } else {
                let j = clients.len() - 1;
                assert(clients[j] == kept[k]);
            }
        }
    }
}

/// When every client answered, pruning removes none.
pub proof fn lemma_all_responsive_keeps_all<C>(clients: Seq<C>, responsive: Seq<bool>)
    requires
        clients.len() == responsive.len(),
        forall|k: int| 0 <= k < responsive.len() ==> #[trigger] responsive[k],
    ensures
        responsive_only(clients, responsive) == clients,
    decreases clients.len(),
{
    if clients.len() > 0 {
        lemma_all_responsive_keeps_all(clients.drop_last(), responsive.drop_last());
        assert(clients.drop_last().push(clients.last()) =~= clients);
    } else {
        assert(clients =~= Seq::<C>::empty());
    }
}

/// When no client answered, pruning leaves none.
pub proof fn lemma_none_responsive_keeps_none<C>(clients: Seq<C>, responsive: Seq<bool>)
    requires
        clients.len() == responsive.len(),
        forall|k: int| 0 <= k < responsive.len() ==> !#[trigger] responsive[k],
    ensures
        responsive_only(clients, responsive) == Seq::<C>::empty(),
    decreases clients.len(),
{
    if clients.len() > 0 {
        lemma_none_responsive_keeps_none(clients.drop_last(), responsive.drop_last());
    }
}

/// Pruning leaves alone a subscriber that registered after the snapshot the
/// ping went to: registering and then pruning gives what pruning and then
/// registering gives.
pub proof fn lemma_prune_keeps_later_registration<C>(
    clients: Seq<C>,
    responsive: Seq<bool>,
    newcomer: C,
)
    requires
        responsive.len() <= clients.len(),
    ensures
        responsive_only(clients.push(newcomer).take(responsive.len() as int), responsive)
            + clients.push(newcomer).skip(responsive.len() as int) == (responsive_only(
            clients.take(responsive.len() as int),
            responsive,
        ) + clients.skip(responsive.len() as int)).push(newcomer),
{
    let n = responsive.len() as int;
    assert(clients.push(newcomer).take(n) =~= clients.take(n));
    assert(clients.push(newcomer).skip(n) =~= clients.skip(n).push(newcomer));
    assert(responsive_only(clients.take(n), responsive) + clients.skip(n).push(newcomer)
        =~= (responsive_only(clients.take(n), responsive) + clients.skip(n)).push(newcomer));
}

} // verus!
