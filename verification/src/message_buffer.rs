//! A sink that keeps every message it is offered, in order, while it opens a
//! connection to the remote server for each of them.

use vstd::prelude::*;

verus! {

/// The state of the buffering sink.
pub struct Buffer {
    remote_server_is_ready: bool,
    foo: u8,
    b: Vec<String>,
}

/// The buffering sink as its contracts see it.
pub struct BufferModel {
    /// Whether the remote server has been reported ready.
    pub remote_server_is_ready: bool,
    /// A counter kept by the sink.
    pub foo: u8,
    /// The messages taken, oldest first.
    pub messages: Seq<String>,
}

impl View for Buffer {
    type V = BufferModel;

    closed spec fn view(&self) -> BufferModel {
        BufferModel {
            remote_server_is_ready: self.remote_server_is_ready,
            foo: self.foo,
            messages: self.b@,
        }
    }
}

impl Buffer {
    /// A sink that holds no message, with the server not yet ready and the
    /// counter at `foo`.
    pub fn new(foo: u8) -> (buffer: Self)
        ensures
            !buffer@.remote_server_is_ready,
            buffer@.foo == foo,
            buffer@.messages == Seq::<String>::empty(),
    {
        Buffer { remote_server_is_ready: false, foo, b: Vec::new() }
    }

    /// Records that the remote server is ready.
    pub fn ready(&mut self)
        ensures
            final(self)@ == (BufferModel { remote_server_is_ready: true, ..old(self)@ }),
    {
        self.remote_server_is_ready = true;
    }

    /// Sets the counter.
    pub fn set_foo(&mut self, foo: u8)
        ensures
            final(self)@ == (BufferModel { foo, ..old(self)@ }),
    {
        self.foo = foo;
    }

    /// Adds one to the counter.
    pub fn increment_foo(&mut self)
        requires
            old(self)@.foo < u8::MAX,
        ensures
            final(self)@ == (BufferModel { foo: (old(self)@.foo + 1) as u8, ..old(self)@ }),
    {
        self.foo = self.foo + 1;
    }

    /// Takes a message: it is kept after the ones taken before. The sink
    /// always takes the message.
    pub fn start_send(&mut self, msg: String)
        ensures
            final(self)@ == (BufferModel { messages: old(self)@.messages.push(msg), ..old(self)@ }),
    {
        self.b.push(msg);
    }

    /// Whether the remote server has been reported ready.
    pub fn remote_server_is_ready(&self) -> (b: bool)
        ensures
            b == self@.remote_server_is_ready,
    {
        self.remote_server_is_ready
    }

    /// The counter.
    pub fn foo(&self) -> (foo: u8)
        ensures
            foo == self@.foo,
    {
        self.foo
    }

    /// The messages taken, oldest first.
    pub fn messages(&self) -> (messages: &Vec<String>)
        ensures
            messages@ == self@.messages,
    {
        &self.b
    }
}

} // verus!
