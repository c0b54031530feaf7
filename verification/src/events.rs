use vstd::prelude::*;
use vstd::string::*;

verus! {

/// The kinds of event pushed to connected clients.
#[derive(PartialEq, Eq, Structural, Debug, Clone, Copy)]
pub enum ClientEvents {
    StartDayTime,
    DayTimeWriteToDB,
    StopDayTime,
    StartTask,
    TaskTimeWriteToDB,
    StopTask,
    CreateTask,
    UpdateTask,
    DeleteTasks,
}

impl ClientEvents {
    /// The event name under which clients receive this kind of event.
    pub open spec fn spec_name(self) -> Seq<char> {
        match self {
            ClientEvents::StartDayTime => "start_day_time"@,
            ClientEvents::DayTimeWriteToDB => "day_time_to_db"@,
            ClientEvents::StopDayTime => "stop_day_time"@,
            ClientEvents::StartTask => "start_task"@,
            ClientEvents::TaskTimeWriteToDB => "task_to_db"@,
            ClientEvents::StopTask => "stop_task"@,
            ClientEvents::CreateTask => "new_task"@,
            ClientEvents::UpdateTask => "update_task"@,
            ClientEvents::DeleteTasks => "delete_tasks"@,
        }
    }

    pub fn name(&self) -> (s: String)
        ensures
            s@ == self.spec_name(),
    {
        match self {
            ClientEvents::StartDayTime => String::from_str("start_day_time"),
            ClientEvents::DayTimeWriteToDB => String::from_str("day_time_to_db"),
            ClientEvents::StopDayTime => String::from_str("stop_day_time"),
            ClientEvents::StartTask => String::from_str("start_task"),
            ClientEvents::TaskTimeWriteToDB => String::from_str("task_to_db"),
            ClientEvents::StopTask => String::from_str("stop_task"),
            ClientEvents::CreateTask => String::from_str("new_task"),
            ClientEvents::UpdateTask => String::from_str("update_task"),
            ClientEvents::DeleteTasks => String::from_str("delete_tasks"),
        }
    }
}

/// One message to push to every connected client: its event and its data.
#[derive(Debug, Clone, PartialEq, Eq)]
pub struct BroadcastMessage {
    pub event: ClientEvents,
    pub data: String,
}

/// The clients of `clients` whose entry in `responsive` is true, in their order.
pub open spec fn responsive_only<C>(clients: Seq<C>, responsive: Seq<bool>) -> Seq<C>
    decreases clients.len(),
{
    if clients.len() == 0 {
        Seq::empty()
    } else {
        let kept = responsive_only(clients.drop_last(), responsive);
        if responsive[clients.len() - 1] {
            kept.push(clients.last())
        } else {
            kept
        }
    }
}

/// How many entries of the first `n` of `responsive` are true.
pub open spec fn count_responsive(responsive: Seq<bool>, n: nat) -> nat
    decreases n,
{
    if n == 0 {
        0
    } else {
        count_responsive(responsive, (n - 1) as nat) + if responsive[n - 1] { 1nat } else { 0nat }
    }
}

/// The connected clients of the event stream, in the order they connected.
pub struct ClientRegistry<C> {
    clients: Vec<C>,
}

impl<C> View for ClientRegistry<C> {
    type V = Seq<C>;

    closed spec fn view(&self) -> Seq<C> {
        self.clients@
    }
}

impl<C> ClientRegistry<C> {
    /// A registry with no client.
    pub fn new() -> (r: Self)
        ensures
            r@ == Seq::<C>::empty(),
    {
        ClientRegistry { clients: Vec::new() }
    }

    /// Registers a newly connected client after all others.
    pub fn add(&mut self, client: C)
        ensures
            final(self)@ == old(self)@.push(client),
    {
        self.clients.push(client);
    }

    /// The registered clients.
    pub fn clients(&self) -> (v: &Vec<C>)
        ensures
            v@ == self@,
    {
        &self.clients
    }

    pub fn len(&self) -> (n: usize)
        ensures
            n == self@.len(),
    {
        self.clients.len()
    }

    /// Replaces the registered clients by `clients`.
    pub fn replace(&mut self, clients: Vec<C>)
        ensures
            final(self)@ == clients@,
    {
        self.clients = clients;
    }

    /// Of a snapshot of the clients, keeps those that answered the ping
    /// (`responsive[i]` for `clients[i]`), in order.
    pub fn retain_responsive(clients: Vec<C>, responsive: &Vec<bool>) -> (kept: Vec<C>)
        requires
            responsive@.len() == clients@.len(),
        ensures
            kept@ == responsive_only(clients@, responsive@),
    {
        let ghost all = clients@;
        let mut kept: Vec<C> = Vec::new();
        let n: usize = responsive.len();
        let mut i: usize = 0;
        for c in it: clients
            invariant
                it.seq() == all,
                responsive@.len() == all.len(),
                i == it.index(),
                i <= all.len(),
                n == all.len(),
                kept@ == responsive_only(all.take(i as int), responsive@),
        {
            proof {
                assert(all.take(i + 1).drop_last() =~= all.take(i as int));
                assert(all.take(i + 1).last() == c);
            }
            assert(i < all.len());
            if responsive[i] {
                kept.push(c);
            }
            i = i + 1;
        }
        proof {
            assert(all.take(i as int) =~= all);
        }
        kept
    }
}

/// The clients kept after a ping are exactly as many as answered it.
pub proof fn lemma_kept_count<C>(clients: Seq<C>, responsive: Seq<bool>)
    requires
        responsive.len() == clients.len(),
    ensures
        responsive_only(clients, responsive).len() == count_responsive(responsive, clients.len()),
    decreases clients.len(),
{
    if clients.len() > 0 {
        lemma_kept_count(clients.drop_last(), responsive.take(clients.len() - 1));
        lemma_prefix_independent(clients.drop_last(), responsive, responsive.take(clients.len() - 1));
        lemma_count_agree(responsive.take(clients.len() - 1), responsive, (clients.len() - 1) as nat);
    }
}

proof fn lemma_prefix_independent<C>(clients: Seq<C>, a: Seq<bool>, b: Seq<bool>)
    requires
        clients.len() <= a.len(),
        clients.len() <= b.len(),
        forall|i: int| 0 <= i < clients.len() ==> a[i] == b[i],
    ensures
        responsive_only(clients, a) == responsive_only(clients, b),
    decreases clients.len(),
{
    if clients.len() > 0 {
        lemma_prefix_independent(clients.drop_last(), a, b);
    }
}

proof fn lemma_count_agree(a: Seq<bool>, b: Seq<bool>, n: nat)
    requires
        n <= a.len(),
        n <= b.len(),
        forall|i: int| 0 <= i < n ==> a[i] == b[i],
    ensures
        count_responsive(a, n) == count_responsive(b, n),
    decreases n,
{
    if n > 0 {
        lemma_count_agree(a, b, (n - 1) as nat);
    }
}

/// When every client answers the ping, the registry keeps all of them, in
/// the same order.
pub proof fn lemma_all_responsive_keeps_all<C>(clients: Seq<C>, responsive: Seq<bool>)
    requires
        responsive.len() == clients.len(),
        forall|i: int| 0 <= i < responsive.len() ==> responsive[i],
    ensures
        responsive_only(clients, responsive) == clients,
    decreases clients.len(),
{
    if clients.len() > 0 {
        lemma_prefix_independent(clients.drop_last(), responsive, responsive.take(clients.len() - 1));
        lemma_all_responsive_keeps_all(clients.drop_last(), responsive.take(clients.len() - 1));
        assert(clients.drop_last().push(clients.last()) =~= clients);
    }
}

/// Every kept client is one of the clients that answered.
pub proof fn lemma_kept_answered<C>(clients: Seq<C>, responsive: Seq<bool>, k: int)
    requires
        responsive.len() == clients.len(),
        0 <= k < responsive_only(clients, responsive).len(),
    ensures
        exists|i: int| 0 <= i < clients.len() && responsive[i] && clients[i] == responsive_only(clients, responsive)[k],
    decreases clients.len(),
{
    let kept = responsive_only(clients.drop_last(), responsive);
    lemma_prefix_independent(clients.drop_last(), responsive, responsive.take(clients.len() - 1));
    if k < kept.len() {
        lemma_kept_answered(clients.drop_last(), responsive.take(clients.len() - 1), k);
        let i: int = choose|i: int| 0 <= i < clients.len() - 1 && responsive.take(clients.len() - 1)[i] && clients.drop_last()[i] == responsive_only(clients.drop_last(), responsive.take(clients.len() - 1))[k];
        assert(clients[i] == responsive_only(clients, responsive)[k]);
    } else {
        assert(responsive[clients.len() - 1]);
        assert(clients[clients.len() - 1] == responsive_only(clients, responsive)[k]);
    }
}

/// Different kinds of event go out under different names, so clients can tell
/// them apart.
pub proof fn law_event_names_distinct(a: ClientEvents, b: ClientEvents)
    ensures
        a != b ==> a.spec_name() != b.spec_name(),
{
    reveal_strlit("start_day_time");
    reveal_strlit("day_time_to_db");
    reveal_strlit("stop_day_time");
    reveal_strlit("start_task");
    reveal_strlit("task_to_db");
    reveal_strlit("stop_task");
    reveal_strlit("new_task");
    reveal_strlit("update_task");
    reveal_strlit("delete_tasks");
    if a != b {
        assert(a.spec_name().len() != b.spec_name().len() || a.spec_name()[0] != b.spec_name()[0]
            || a.spec_name()[1] != b.spec_name()[1] || a.spec_name()[5] != b.spec_name()[5]
            || a.spec_name()[6] != b.spec_name()[6]);
    }
}

} // verus!
