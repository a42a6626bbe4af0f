//! The greeting service.
use vstd::prelude::*;

verus! {

/// What a client sends: the name to greet.
#[derive(Debug, PartialEq, Eq)]
pub struct HelloRequest {
    pub name: String,
}

/// What the service answers.
#[derive(Debug, PartialEq, Eq)]
pub struct HelloReply {
    pub message: String,
}

/// The greeting service.  It holds no state.
#[derive(Clone, Copy, Debug, PartialEq, Eq, Structural)]
pub struct HelloWorldService {}

/// The text that answers a name.
pub open spec fn greeting(name: Seq<char>) -> Seq<char> {
    "hello "@ + name
}

impl Default for HelloWorldService {
    fn default() -> (r: HelloWorldService)
        ensures
            r == (HelloWorldService {  }),
    {
        HelloWorldService {  }
    }
}

impl HelloWorldService {
    /// Answers a request with `hello ` and the name in it.  No request is
    /// refused.
    pub fn say_hello(&self, req: HelloRequest) -> (reply: HelloReply)
        ensures
            reply.message@ == greeting(req.name@),
    {
        let mut message = "hello ".to_owned();
        message.append(req.name.as_str());
        HelloReply { message }
    }
}

/// The request that the clients send.
pub fn hello_request() -> (req: HelloRequest)
    ensures
        req.name@ == "Tonic"@,
{
    HelloRequest { name: "Tonic".to_owned() }
}

/// A greeting holds the name it answers, whole, behind six fixed characters.
pub proof fn law_greeting_holds_the_name(name: Seq<char>)
    ensures
        greeting(name).len() == 6 + name.len(),
        greeting(name).take(6) == seq!['h', 'e', 'l', 'l', 'o', ' '],
        greeting(name).skip(6) == name,
{
    reveal_strlit("hello ");
    assert(greeting(name).take(6) =~= seq!['h', 'e', 'l', 'l', 'o', ' ']);
    assert(greeting(name).skip(6) =~= name);
}

/// Different names are greeted differently.
pub proof fn law_greeting_is_injective(name: Seq<char>, other: Seq<char>)
    ensures
        greeting(name) == greeting(other) <==> name == other,
{
    law_greeting_holds_the_name(name);
    law_greeting_holds_the_name(other);
}

} // verus!
