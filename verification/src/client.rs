//! A member of the chat room: a name and the address its messages go to.

use vstd::prelude::*;

verus! {

/// A room member. `A` is the address type that the transport uses.
#[derive(Debug)]
pub struct Client<A> {
    name: String,
    udp_socket_addr: A,
}

/// The content of a [`Client`].
pub struct ClientView<A> {
    pub name: Seq<char>,
    pub addr: A,
}

impl<A> View for Client<A> {
    type V = ClientView<A>;

    closed spec fn view(&self) -> ClientView<A> {
        ClientView { name: self.name@, addr: self.udp_socket_addr }
    }
}

impl<A> Client<A> {
    /// A member with the given name and address.
    pub fn new(name: String, udp_socket_addr: A) -> (c: Client<A>)
        ensures
            c@ == (ClientView { name: name@, addr: udp_socket_addr }),
    {
        Client { name, udp_socket_addr }
    }

    /// The member's name.
    pub fn get_name(&self) -> (r: String)
        ensures
            r@ == self@.name,
    {
        self.name.clone()
    }
}

impl<A: Copy> Client<A> {
    /// The member's address.
    pub fn get_udp_socket_addr(&self) -> (r: A)
        ensures
            r == self@.addr,
    {
        self.udp_socket_addr
    }
}

} // verus!
