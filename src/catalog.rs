//! The fixed catalog of the cache module: its name and the five commands
//! that it must provide.

use vstd::prelude::*;

verus! {

/// Returns the number of visitors of a captcha.
pub const GET: &'static str = "MCAPTCHA_CACHE.GET";

/// Records one visitor of a captcha.
pub const ADD_VISITOR: &'static str = "MCAPTCHA_CACHE.ADD_VISITOR";

/// Deletes a captcha.
pub const DEL: &'static str = "MCAPTCHA_CACHE.DELETE_CAPTCHA";

/// Registers a captcha with its serialized configuration.
pub const ADD_CAPTCHA: &'static str = "MCAPTCHA_CACHE.ADD_CAPTCHA";

/// Tells whether a captcha is registered.
pub const CAPTCHA_EXISTS: &'static str = "MCAPTCHA_CACHE.CAPTCHA_EXISTS";

/// The name under which the module appears in the module listing.
pub const MODULE_NAME: &'static str = "mcaptcha_cahce";

/// How many commands the capability check asks about.
pub const COMMAND_COUNT: usize = 5;

/// The commands that the capability check asks about, in the order in which
/// it asks.
pub open spec fn catalog() -> Seq<Seq<char>> {
    seq![ADD_VISITOR@, ADD_CAPTCHA@, DEL@, CAPTCHA_EXISTS@, GET@]
}

/// The name of the `i`-th command of the catalog.
pub fn command_name(i: usize) -> (r: &'static str)
    requires
        i < COMMAND_COUNT,
    ensures
        r@ == catalog()[i as int],
{
    if i == 0 {
        ADD_VISITOR
    } else if i == 1 {
        ADD_CAPTCHA
    } else if i == 2 {
        DEL
    } else if i == 3 {
        CAPTCHA_EXISTS
    } else {
        GET
    }
}

/// All the commands of the catalog, in order.
pub fn required_commands() -> (r: Vec<&'static str>)
    ensures
        r@.len() == COMMAND_COUNT,
        forall|i: int| 0 <= i < COMMAND_COUNT ==> #[trigger] r@[i]@ == catalog()[i],
{
    let mut r: Vec<&'static str> = Vec::new();
    let mut i: usize = 0;
    while i < COMMAND_COUNT
        invariant
            i <= COMMAND_COUNT,
            r@.len() == i,
            forall|j: int| 0 <= j < i ==> #[trigger] r@[j]@ == catalog()[j],
        decreases COMMAND_COUNT - i,
    {
        r.push(command_name(i));
        i = i + 1;
    }
    r
}

} // verus!
