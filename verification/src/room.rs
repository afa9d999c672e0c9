//! The chat room: who is in it, and where each message has to go.
//!
//! The room decides; the transport that owns the socket delivers what the
//! room returns.

use vstd::prelude::*;

use crate::client::{Client, ClientView};
use crate::method::{method_of_code, Method};
use crate::request::Request;
use crate::utils::map_method;

verus! {

/// The members of a room in the order their names first joined: each
/// entry is the name the member joined under and the member itself.
pub type Members<A> = Seq<(Seq<char>, ClientView<A>)>;

/// No name is joined twice.
pub open spec fn names_distinct<A>(m: Members<A>) -> bool {
    forall|i: int, j: int| 0 <= i < m.len() && 0 <= j < m.len() && i != j ==> m[i].0 != m[j].0
}

/// Whether a member joined under `name`.
pub open spec fn has_name<A>(m: Members<A>, name: Seq<char>) -> bool {
    exists|i: int| 0 <= i < m.len() && m[i].0 == name
}

/// The member joined under `name`, if any.
pub open spec fn member_named<A>(m: Members<A>, name: Seq<char>) -> Option<ClientView<A>> {
    if has_name(m, name) {
        Some(m[choose|i: int| 0 <= i < m.len() && m[i].0 == name].1)
    } else {
        None
    }
}

/// The members after `client` joins under `name`: a member already joined
/// under that name is replaced in place, otherwise the new member comes last.
pub open spec fn joined<A>(m: Members<A>, name: Seq<char>, client: ClientView<A>) -> Members<A> {
    if has_name(m, name) {
        m.update(choose|i: int| 0 <= i < m.len() && m[i].0 == name, (name, client))
    } else {
        m.push((name, client))
    }
}

/// The deliveries of a message that `from` sends to the room: one for each
/// member whose own name is not `from`, in member order, each carrying `text`.
pub open spec fn broadcast_plan<A>(m: Members<A>, from: Seq<char>, text: Seq<char>) -> Seq<(A, Seq<char>)>
    decreases m.len(),
{
    if m.len() == 0 {
        Seq::empty()
    } else {
        let before = broadcast_plan(m.drop_last(), from, text);
        if m.last().1.name != from {
            before.push((m.last().1.addr, text))
        } else {
            before
        }
    }
}

/// The delivery of a private message: to the member joined under `to`, if any.
pub open spec fn private_plan<A>(m: Members<A>, to: Seq<char>, text: Seq<char>) -> Option<(A, Seq<char>)> {
    match member_named(m, to) {
        Some(c) => Some((c.addr, text)),
        None => None,
    }
}

/// A message to send: the text, and the address it goes to.
#[derive(Debug)]
pub struct Delivery<A> {
    pub addr: A,
    pub text: String,
}

impl<A> View for Delivery<A> {
    type V = (A, Seq<char>);

    open spec fn view(&self) -> (A, Seq<char>) {
        (self.addr, self.text@)
    }
}

/// The views of a list of deliveries.
pub open spec fn deliveries_view<A>(d: Seq<Delivery<A>>) -> Seq<(A, Seq<char>)> {
    d.map_values(|x: Delivery<A>| x@)
}

/// A chat room: its members, each under the name it joined with.
#[derive(Debug)]
pub struct Room<A> {
    clients: Vec<(String, Client<A>)>,
}

impl<A> View for Room<A> {
    type V = Members<A>;

    closed spec fn view(&self) -> Members<A> {
        self.clients@.map_values(|e: (String, Client<A>)| (e.0@, e.1@))
    }
}

impl<A> Room<A> {
    #[verifier::type_invariant]
    spec fn members_distinct(&self) -> bool {
        names_distinct(self@)
    }
}

impl<A: Copy> Room<A> {
    /// A room holding the given members, each under its name; the names
    /// are distinct, as the keys of a map are.
    pub fn new(clients: Vec<(String, Client<A>)>) -> (room: Room<A>)
        requires
            names_distinct(clients@.map_values(|e: (String, Client<A>)| (e.0@, e.1@))),
        ensures
            room@ == clients@.map_values(|e: (String, Client<A>)| (e.0@, e.1@)),
            names_distinct(room@),
    {
        Room { clients }
    }

    /// `client` joins under `name`, replacing a member already joined under it.
    pub fn join(&mut self, name: String, client: Client<A>)
        ensures
            final(self)@ == joined(old(self)@, name@, client@),
            names_distinct(final(self)@),
    {
        proof {
            use_type_invariant(&*self);
        }
        let ghost m = self@;
        let mut clients: Vec<(String, Client<A>)> = Vec::new();
        std::mem::swap(&mut clients, &mut self.clients);
        let n = clients.len();
        let mut i: usize = 0;
        while i < n
            invariant
                n == clients@.len(),
                i <= n,
                clients@.map_values(|e: (String, Client<A>)| (e.0@, e.1@)) == m,
                names_distinct(m),
                m == old(self)@,
                forall|k: int| 0 <= k < i ==> m[k].0 != name@,
            decreases n - i,
        {
            if clients[i].0 == name {
                proof {
                    assert(m[i as int].0 == name@);
                    assert(has_name(m, name@));
                    let j = choose|j: int| 0 <= j < m.len() && m[j].0 == name@;
                    assert(j == i);
                }
                clients.set(i, (name, client));
                proof {
                    assert(clients@.map_values(|e: (String, Client<A>)| (e.0@, e.1@)) =~= joined(
                        m,
                        name@,
                        client@,
                    ));
                }
                self.clients = clients;
                return;
            }
            i = i + 1;
        }
        proof {
            assert(!has_name(m, name@));
        }
        clients.push((name, client));
        proof {
            assert(clients@.map_values(|e: (String, Client<A>)| (e.0@, e.1@)) =~= joined(
                m,
                name@,
                client@,
            ));
        }
        self.clients = clients;
    }

    /// Sends `request`'s text to every member except those whose own name is
    /// the request's sender: the deliveries to make, in member order.
    pub fn broadcast(&self, request: Request) -> (out: Vec<Delivery<A>>)
        ensures
            deliveries_view(out@) == broadcast_plan(self@, request@.from, request@.text),
    {
        let ghost m = self@;
        let from = request.get_from();
        let mut out: Vec<Delivery<A>> = Vec::new();
        let n = self.clients.len();
        let mut i: usize = 0;
        while i < n
            invariant
                n == self.clients@.len(),
                m == self@,
                i <= n,
                from@ == request@.from,
                deliveries_view(out@) == broadcast_plan(m.take(i as int), request@.from, request@.text),
            decreases n - i,
        {
            let client = &self.clients[i].1;
            proof {
                assert(m.take(i + 1).drop_last() =~= m.take(i as int));
                assert(m.take(i + 1).last() == m[i as int]);
            }
            if client.get_name() == from {
                proof {
                    assert(deliveries_view(out@) =~= broadcast_plan(m.take(i + 1), request@.from, request@.text));
                }
            } else {
                let d = Delivery { addr: client.get_udp_socket_addr(), text: request.get_text() };
                out.push(d);
                proof {
                    assert(deliveries_view(out@) =~= broadcast_plan(m.take(i + 1), request@.from, request@.text));
                }
            }
            i = i + 1;
        }
        proof {
            assert(m.take(n as int) =~= m);
        }
        out
    }

    /// Sends `request`'s text to the member joined under the request's
    /// addressee, if there is one.
    pub fn private_msg(&self, request: Request) -> (out: Option<Delivery<A>>)
        ensures
            out matches Some(d) ==> private_plan(self@, request@.to, request@.text) == Some(d@),
            out is None ==> private_plan(self@, request@.to, request@.text) is None,
    {
        match self.get_client_by_name(request.get_to()) {
            Some(client) => Some(Delivery { addr: client.get_udp_socket_addr(), text: request.get_text() }),
            None => None,
        }
    }

    /// The member joined under `name`, if any.
    pub fn get_client_by_name(&self, name: String) -> (res: Option<&Client<A>>)
        ensures
            res matches Some(c) ==> member_named(self@, name@) == Some(c@),
            res is None ==> member_named(self@, name@) is None,
    {
        proof {
            use_type_invariant(self);
        }
        let ghost m = self@;
        let n = self.clients.len();
        let mut i: usize = 0;
        while i < n
            invariant
                n == self.clients@.len(),
                m == self@,
                names_distinct(m),
                i <= n,
                forall|k: int| 0 <= k < i ==> m[k].0 != name@,
            decreases n - i,
        {
            if self.clients[i].0 == name {
                proof {
                    assert(m[i as int].0 == name@);
                    assert(has_name(m, name@));
                    let j = choose|j: int| 0 <= j < m.len() && m[j].0 == name@;
                    assert(j == i);
                }
                return Some(&self.clients[i].1);
            }
            i = i + 1;
        }
        None
    }

    /// Acts on a request from `client`: a join request adds the client
    /// under its own name, a send request goes to every other member, a
    /// private message goes to its addressee, and a request with an unknown
    /// method code does nothing. Returns the deliveries to make.
    pub fn dispatch(&mut self, request: Request, client: Client<A>) -> (out: Vec<Delivery<A>>)
        ensures
            names_distinct(final(self)@),
            match method_of_code(request@.method) {
                Some(Method::Join) => {
                    &&& final(self)@ == joined(old(self)@, client@.name, client@)
                    &&& out@.len() == 0
                },
                Some(Method::Send) => {
                    &&& final(self)@ == old(self)@
                    &&& deliveries_view(out@) == broadcast_plan(old(self)@, request@.from, request@.text)
                },
                Some(Method::PvtMsg) => {
                    &&& final(self)@ == old(self)@
                    &&& deliveries_view(out@) == match private_plan(old(self)@, request@.to, request@.text) {
                        Some(d) => seq![d],
                        None => Seq::empty(),
                    }
                },
                None => {
                    &&& final(self)@ == old(self)@
                    &&& out@.len() == 0
                },
            },
    {
        proof {
            use_type_invariant(&*self);
        }
        let mut out: Vec<Delivery<A>> = Vec::new();
        match map_method(&request.get_method()) {
            Some(Method::Join) => {
                let name = client.get_name();
                self.join(name, client);
            },
            Some(Method::Send) => {
                out = self.broadcast(request);
            },
            Some(Method::PvtMsg) => {
                if let Some(d) = self.private_msg(request) {
                    out.push(d);
                    proof {
                        assert(deliveries_view(out@) =~= seq![d@]);
                    }
                }
            },
            None => {},
        }
        proof {
            if out@.len() == 0 {
                assert(deliveries_view(out@) =~= Seq::empty());
            }
        }
        out
    }
}

/// A member that joins under a name is the member found under that name.
pub proof fn law_join_then_lookup<A>(m: Members<A>, name: Seq<char>, client: ClientView<A>)
    requires
        names_distinct(m),
    ensures
        member_named(joined(m, name, client), name) == Some(client),
        names_distinct(joined(m, name, client)),
{
    let after = joined(m, name, client);
    if has_name(m, name) {
        let i = choose|i: int| 0 <= i < m.len() && m[i].0 == name;
        assert(after[i].0 == name);
        assert(has_name(after, name));
        let j = choose|j: int| 0 <= j < after.len() && after[j].0 == name;
        assert(j == i);
    } else {
        let i = m.len() as int;
        assert(after[i].0 == name);
        assert(has_name(after, name));
        let j = choose|j: int| 0 <= j < after.len() && after[j].0 == name;
        assert(j == i);
    }
}

/// Joining under one name leaves the member under every other name as it was.
pub proof fn law_join_keeps_others<A>(
    m: Members<A>,
    name: Seq<char>,
    client: ClientView<A>,
    other: Seq<char>,
)
    requires
        names_distinct(m),
        other != name,
    ensures
        member_named(joined(m, name, client), other) == member_named(m, other),
{
    let after = joined(m, name, client);
    law_join_then_lookup(m, name, client);
    if has_name(m, other) {
        let i = choose|i: int| 0 <= i < m.len() && m[i].0 == other;
        assert(after[i] == m[i]);
        assert(has_name(after, other));
        let j = choose|j: int| 0 <= j < after.len() && after[j].0 == other;
        assert(j == i);
    } else {
        assert forall|j: int| 0 <= j < after.len() implies after[j].0 != other by {
            if j < m.len() {
                if has_name(m, name) {
                    let i = choose|i: int| 0 <= i < m.len() && m[i].0 == name;
                    if j != i {
                        assert(after[j] == m[j]);
                    }
                } else {
                    assert(after[j] == m[j]);
                }
            }
        }
    }
}

/// A room grows by one member when a new name joins, and keeps its size
/// when a name already in it joins again.
pub proof fn law_join_size<A>(m: Members<A>, name: Seq<char>, client: ClientView<A>)
    ensures
        joined(m, name, client).len() == if has_name(m, name) { m.len() } else { m.len() + 1 },
{
}

/// A broadcast makes one delivery for each member whose own name is not
/// the sender's, in member order, and each carries the message text.
pub proof fn law_broadcast_reaches_all_but_sender<A>(m: Members<A>, from: Seq<char>, text: Seq<char>)
    ensures
        broadcast_plan(m, from, text) == m.filter(|e: (Seq<char>, ClientView<A>)| e.1.name != from).map_values(
            |e: (Seq<char>, ClientView<A>)| (e.1.addr, text),
        ),
    decreases m.len(),
{
    let pred = |e: (Seq<char>, ClientView<A>)| e.1.name != from;
    let f = |e: (Seq<char>, ClientView<A>)| (e.1.addr, text);
    if m.len() == 0 {
        reveal(Seq::filter);
        assert(m.filter(pred).map_values(f) =~= Seq::<(A, Seq<char>)>::empty());
    } else {
        law_broadcast_reaches_all_but_sender(m.drop_last(), from, text);
        let before = m.drop_last().filter(pred);
        reveal(Seq::filter);
        assert(m.filter(pred) == if pred(m.last()) { before.push(m.last()) } else { before });
        if pred(m.last()) {
            assert(before.push(m.last()).map_values(f) =~= before.map_values(f).push(f(m.last())));
        }
    }
}

/// A private message to a name that just joined reaches the member that
/// joined under it.
pub proof fn law_private_after_join<A>(
    m: Members<A>,
    name: Seq<char>,
    client: ClientView<A>,
    text: Seq<char>,
)
    requires
        names_distinct(m),
    ensures
        private_plan(joined(m, name, client), name, text) == Some((client.addr, text)),
{
    law_join_then_lookup(m, name, client);
}

/// A private message to a name that no member joined under is not delivered.
pub proof fn law_private_to_stranger<A>(m: Members<A>, to: Seq<char>, text: Seq<char>)
    requires
        forall|i: int| 0 <= i < m.len() ==> m[i].0 != to,
    ensures
        private_plan(m, to, text) is None,
{
}

} // verus!
