//! What the library expects of the cache module: the registry of captchas
//! that the requests of the domain commands act on, and the replies that it
//! gives. Together with the decoding of replies this says what a caller
//! observes over a sequence of requests.

use vstd::prelude::*;
use crate::catalog::{ADD_CAPTCHA, ADD_VISITOR, CAPTCHA_EXISTS, DEL, GET};
use crate::reply::exists_of_flag;
use crate::request::{is_request, Request};

verus! {

/// The registry of the cache module: each registered captcha with the
/// number of its visitors.
pub type Registry = Map<Seq<char>, nat>;

/// The registry after a captcha is registered: it starts with no visitors.
pub open spec fn registered(s: Registry, id: Seq<char>) -> Registry {
    s.insert(id, 0)
}

/// The registry after one visitor of a captcha is recorded.
pub open spec fn visited(s: Registry, id: Seq<char>) -> Registry {
    if s.contains_key(id) {
        s.insert(id, s[id] + 1)
    } else {
        s
    }
}

/// The registry after a captcha is deleted.
pub open spec fn deleted(s: Registry, id: Seq<char>) -> Registry {
    s.remove(id)
}

/// The registry after the module ran a request. Registration, visitors and
/// deletion change it; the existence and count queries, and any other
/// request, leave it as it was.
pub open spec fn apply(s: Registry, r: Request) -> Registry {
    if r.args@.len() == 0 {
        s
    } else if r.name@ == ADD_CAPTCHA@ {
        registered(s, r.args@[0]@)
    } else if r.name@ == ADD_VISITOR@ {
        visited(s, r.args@[0]@)
    } else if r.name@ == DEL@ {
        deleted(s, r.args@[0]@)
    } else {
        s
    }
}

/// The registry after the module ran the requests, in order.
pub open spec fn apply_all(s: Registry, rs: Seq<Request>) -> Registry
    decreases rs.len(),
{
    if rs.len() == 0 {
        s
    } else {
        apply(apply_all(s, rs.drop_last()), rs.last())
    }
}

/// The reply of the existence command: `0` for a registered captcha, `1`
/// for any other.
pub open spec fn exists_flag(s: Registry, id: Seq<char>) -> usize {
    if s.contains_key(id) {
        0
    } else {
        1
    }
}

/// The reply of the visitor count command: the count of a registered
/// captcha; an error reply, here `None`, for any other.
pub open spec fn count_reply(s: Registry, id: Seq<char>) -> Option<nat> {
    if s.contains_key(id) {
        Some(s[id])
    } else {
        None
    }
}

proof fn lemma_names_differ()
    ensures
        ADD_VISITOR@ != ADD_CAPTCHA@,
        DEL@ != ADD_CAPTCHA@,
        DEL@ != ADD_VISITOR@,
        GET@ != ADD_CAPTCHA@,
        GET@ != ADD_VISITOR@,
        GET@ != DEL@,
        CAPTCHA_EXISTS@ != ADD_CAPTCHA@,
        CAPTCHA_EXISTS@ != ADD_VISITOR@,
        CAPTCHA_EXISTS@ != DEL@,
{
    reveal_strlit("MCAPTCHA_CACHE.ADD_VISITOR");
    reveal_strlit("MCAPTCHA_CACHE.ADD_CAPTCHA");
    reveal_strlit("MCAPTCHA_CACHE.DELETE_CAPTCHA");
    reveal_strlit("MCAPTCHA_CACHE.GET");
    reveal_strlit("MCAPTCHA_CACHE.CAPTCHA_EXISTS");
    assert(ADD_VISITOR@[19] != ADD_CAPTCHA@[19]);
    assert(DEL@.len() != ADD_CAPTCHA@.len());
    assert(DEL@.len() != ADD_VISITOR@.len());
    assert(GET@.len() != ADD_CAPTCHA@.len());
    assert(GET@.len() != ADD_VISITOR@.len());
    assert(GET@.len() != DEL@.len());
    assert(CAPTCHA_EXISTS@.len() != ADD_CAPTCHA@.len());
    assert(CAPTCHA_EXISTS@.len() != ADD_VISITOR@.len());
    assert(CAPTCHA_EXISTS@[15] != DEL@[15]);
}

/// After the registration request of a captcha the existence check reports
/// it as present; before, where it was not registered, as absent.
pub proof fn lemma_register_then_exists(
    s: Registry,
    reg: Request,
    id: Seq<char>,
    config: Seq<char>,
)
    requires
        is_request(reg, ADD_CAPTCHA@, seq![id, config]),
    ensures
        exists_of_flag(exists_flag(apply(s, reg), id)) == Some(true),
        !s.contains_key(id) ==> exists_of_flag(exists_flag(s, id)) == Some(false),
{
    assert(reg.args@[0]@ == id);
}

/// The existence and count queries leave the registry as it was, so asking
/// twice gives the same answer.
pub proof fn lemma_reads_leave_registry(s: Registry, r: Request, id: Seq<char>)
    requires
        is_request(r, GET@, seq![id]) || is_request(r, CAPTCHA_EXISTS@, seq![id]),
    ensures
        apply(s, r) == s,
        count_reply(apply(s, r), id) == count_reply(s, id),
        exists_flag(apply(s, r), id) == exists_flag(s, id),
{
    lemma_names_differ();
}

/// Visitor requests for a registered captcha, run one after another, add
/// exactly their number to its count.
pub proof fn lemma_visits_add_up(s: Registry, rs: Seq<Request>, id: Seq<char>)
    requires
        s.contains_key(id),
        forall|i: int| 0 <= i < rs.len() ==> is_request(#[trigger] rs[i], ADD_VISITOR@, seq![id]),
    ensures
        apply_all(s, rs).contains_key(id),
        count_reply(apply_all(s, rs), id) == Some(s[id] + rs.len()),
    decreases rs.len(),
{
    if rs.len() > 0 {
        lemma_names_differ();
        let init = rs.drop_last();
        assert forall|i: int| 0 <= i < init.len() implies is_request(
            #[trigger] init[i],
            ADD_VISITOR@,
            seq![id],
        ) by {
            assert(init[i] == rs[i]);
        }
        lemma_visits_add_up(s, init, id);
        assert(is_request(rs[rs.len() - 1], ADD_VISITOR@, seq![id]));
        assert(rs.last().args@[0]@ == id);
    }
}

/// A freshly registered captcha that gets `n` visitor requests reports a
/// count of exactly `n`.
pub proof fn lemma_fresh_visits_counted(
    s: Registry,
    reg: Request,
    config: Seq<char>,
    rs: Seq<Request>,
    id: Seq<char>,
)
    requires
        is_request(reg, ADD_CAPTCHA@, seq![id, config]),
        forall|i: int| 0 <= i < rs.len() ==> is_request(#[trigger] rs[i], ADD_VISITOR@, seq![id]),
    ensures
        count_reply(apply_all(apply(s, reg), rs), id) == Some(rs.len()),
{
    assert(reg.args@[0]@ == id);
    lemma_visits_add_up(apply(s, reg), rs, id);
}

/// After the deletion request of a captcha the existence check reports it
/// as absent, and asking for its visitor count gives an error.
pub proof fn lemma_delete_then_absent(s: Registry, del: Request, id: Seq<char>)
    requires
        is_request(del, DEL@, seq![id]),
    ensures
        exists_of_flag(exists_flag(apply(s, del), id)) == Some(false),
        count_reply(apply(s, del), id) is None,
{
    lemma_names_differ();
    assert(del.args@[0]@ == id);
}

} // verus!
