//! The requests that the library sends to the store: the queries of the
//! capability check and the five domain commands.

use vstd::prelude::*;
use crate::catalog::{ADD_CAPTCHA, ADD_VISITOR, CAPTCHA_EXISTS, DEL, GET};

verus! {

#[verifier::external_type_specification]
#[verifier::external_body]
pub struct ExCmd(redis::Cmd);

/// Registration of a captcha: its identifier and its configuration, already
/// serialized.
pub struct AddSite {
    pub id: String,
    pub config: String,
}

/// One visit of the captcha with the given identifier.
pub struct AddVisitor(pub String);

/// What the cache module reports after it recorded a visitor.
#[derive(Debug, Clone, Copy, PartialEq, Eq, Structural)]
pub struct AddVisitorResult {
    pub duration: u64,
    pub difficulty_factor: u32,
}

/// A command for the store: its name and its arguments.
pub struct Request {
    pub name: &'static str,
    pub args: Vec<String>,
}

/// The request is the command `name` with the arguments `args`, in order.
pub open spec fn is_request(r: Request, name: Seq<char>, args: Seq<Seq<char>>) -> bool {
    &&& r.name@ == name
    &&& r.args@.len() == args.len()
    &&& forall|i: int| 0 <= i < args.len() ==> #[trigger] r.args@[i]@ == args[i]
}

/// The words of a command of the Redis client: its name, then each of its
/// arguments.
pub uninterp spec fn cmd_words(c: redis::Cmd) -> Seq<Seq<char>>;

/// Relies on redis::cmd and redis::Cmd::arg: a command whose first word is
/// the name, followed by each argument as a word of its own.
#[verifier::external_body]
fn packed_cmd(name: &str, args: &Vec<String>) -> (r: redis::Cmd)
    ensures
        cmd_words(r) == seq![name@] + args@.map_values(|s: String| s@),
{
    let mut c = redis::cmd(name);
    c.arg(args);
    c
}

impl Request {
    fn with_one(name: &'static str, a: &str) -> (r: Request)
        ensures
            is_request(r, name@, seq![a@]),
    {
        let mut args: Vec<String> = Vec::new();
        args.push(a.to_owned());
        Request { name, args }
    }

    fn with_two(name: &'static str, a: &str, b: &str) -> (r: Request)
        ensures
            is_request(r, name@, seq![a@, b@]),
    {
        let mut args: Vec<String> = Vec::new();
        args.push(a.to_owned());
        args.push(b.to_owned());
        Request { name, args }
    }

    /// The query of the store's module listing.
    pub fn module_list() -> (r: Request)
        ensures
            is_request(r, "MODULE"@, seq!["LIST"@]),
    {
        Request::with_one("MODULE", "LIST")
    }

    /// The introspection query of the named command.
    pub fn command_info(command: &str) -> (r: Request)
        ensures
            is_request(r, "COMMAND"@, seq!["INFO"@, command@]),
    {
        Request::with_two("COMMAND", "INFO", command)
    }

    /// Registers a captcha with its serialized configuration.
    pub fn add_captcha(msg: &AddSite) -> (r: Request)
        ensures
            is_request(r, ADD_CAPTCHA@, seq![msg.id@, msg.config@]),
    {
        Request::with_two(ADD_CAPTCHA, msg.id.as_str(), msg.config.as_str())
    }

    /// Records one visitor of a captcha.
    pub fn add_visitor(msg: &AddVisitor) -> (r: Request)
        ensures
            is_request(r, ADD_VISITOR@, seq![msg.0@]),
    {
        Request::with_one(ADD_VISITOR, msg.0.as_str())
    }

    /// Asks whether a captcha is registered.
    pub fn captcha_exists(captcha: &str) -> (r: Request)
        ensures
            is_request(r, CAPTCHA_EXISTS@, seq![captcha@]),
    {
        Request::with_one(CAPTCHA_EXISTS, captcha)
    }

    /// Deletes a captcha.
    pub fn delete_captcha(captcha: &str) -> (r: Request)
        ensures
            is_request(r, DEL@, seq![captcha@]),
    {
        Request::with_one(DEL, captcha)
    }

    /// Asks for the number of visitors of a captcha.
    pub fn get_visitors(captcha: &str) -> (r: Request)
        ensures
            is_request(r, GET@, seq![captcha@]),
    {
        Request::with_one(GET, captcha)
    }

    /// The request as a command of the Redis client: the name, then the
    /// arguments in order.
    pub fn to_cmd(&self) -> (r: redis::Cmd)
        ensures
            cmd_words(r) == seq![self.name@] + self.args@.map_values(|s: String| s@),
    {
        packed_cmd(self.name, &self.args)
    }
}

} // verus!
