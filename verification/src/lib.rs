//! A newsletter service: subscribers sign up with a name and an email, receive a
//! confirmation email, and confirm through the link it holds.
use vstd::prelude::*;

pub mod configuration;
pub mod domain;
pub mod email_client;
pub mod laws;
pub mod routes;
pub mod text;
pub mod token;

pub use configuration::Environment;
pub use domain::{SubscriberDetails, SubscriberEmail, SubscriberName};
pub use email_client::{EmailClient, EmailRequest};
pub use routes::{error_chain_fmt, SubReq, SubscribeError};

verus! {

/// The greeting for `name`, or for the world when no name is given.
pub open spec fn greeting(name: Option<Seq<char>>) -> Seq<char> {
    "Hello "@ + match name {
        Some(n) => n,
        None => "World"@,
    } + "!"@
}

/// Greets the name taken from the path, or the world.
pub fn greet(name: Option<&str>) -> (r: String)
    ensures
        r@ == greeting(
            match name {
                Some(n) => Some(n@),
                None => None,
            },
        ),
        name matches Some(n) ==> r@ == "Hello "@ + n@ + "!"@,
        name is None ==> r@ == "Hello World!"@,
{
    proof {
        reveal_strlit("Hello ");
        reveal_strlit("World");
        reveal_strlit("!");
        reveal_strlit("Hello World!");
        assert("Hello "@ + "World"@ + "!"@ =~= "Hello World!"@);
    }
    let who = match name {
        Some(n) => n,
        None => "World",
    };
    crate::text::concat3("Hello ", who, "!")
}

} // verus!
