//! The laws of the builder, stated over its model and the payload it
//! serializes to, and proved once for every builder state.

use crate::builder::payload_members;
use crate::builder::with_body;
use crate::builder::with_draft;
use crate::builder::with_maintainer_can_modify;
use crate::builder::BuilderModel;
use crate::json::json_bool;
use crate::json::json_string;
use vstd::prelude::*;

verus! {

/// Serialization completeness: with every optional field set, the payload
/// lists exactly the six documented members, in order, each holding the
/// configured value.
pub proof fn lemma_payload_complete(m: BuilderModel)
    requires
        m.body is Some,
        m.draft is Some,
        m.maintainer_can_modify is Some,
    ensures
        payload_members(m) == seq![
            ("title"@, json_string(m.title)),
            ("head"@, json_string(m.head)),
            ("base"@, json_string(m.base)),
            ("body"@, json_string(m.body->0)),
            ("draft"@, json_bool(m.draft->0)),
            ("maintainer_can_modify"@, json_bool(m.maintainer_can_modify->0)),
        ],
{
    assert(payload_members(m) =~= seq![
        ("title"@, json_string(m.title)),
        ("head"@, json_string(m.head)),
        ("base"@, json_string(m.base)),
        ("body"@, json_string(m.body->0)),
        ("draft"@, json_bool(m.draft->0)),
        ("maintainer_can_modify"@, json_bool(m.maintainer_can_modify->0)),
    ]);
}

/// Optional-field omission: an optional field that was never set
/// contributes no member at all — its key is absent from the payload.
pub proof fn lemma_payload_omits_unset(m: BuilderModel)
    ensures
        m.body is None ==> forall|i: int|
            0 <= i < payload_members(m).len() ==> (#[trigger] payload_members(m)[i]).0 != "body"@,
        m.draft is None ==> forall|i: int|
            0 <= i < payload_members(m).len() ==> (#[trigger] payload_members(m)[i]).0 != "draft"@,
        m.maintainer_can_modify is None ==> forall|i: int|
            0 <= i < payload_members(m).len() ==> (#[trigger] payload_members(m)[i]).0
                != "maintainer_can_modify"@,
{
    reveal_strlit("title");
    reveal_strlit("head");
    reveal_strlit("base");
    reveal_strlit("body");
    reveal_strlit("draft");
    reveal_strlit("maintainer_can_modify");
    assert("title"@ != "body"@) by {
        assert("title"@.len() == 5);
        assert("body"@.len() == 4);
    }
    assert("head"@ != "body"@) by {
        assert("head"@[0] == 'h');
        assert("body"@[0] == 'b');
    }
    assert("base"@ != "body"@) by {
        assert("base"@[1] == 'a');
        assert("body"@[1] == 'o');
    }
    assert("draft"@ != "body"@) by {
        assert("draft"@.len() == 5);
        assert("body"@.len() == 4);
    }
    assert("maintainer_can_modify"@ != "body"@) by {
        assert("maintainer_can_modify"@.len() == 21);
        assert("body"@.len() == 4);
    }
    assert("title"@ != "draft"@) by {
        assert("title"@[0] == 't');
        assert("draft"@[0] == 'd');
    }
    assert("head"@ != "draft"@) by {
        assert("head"@.len() == 4);
        assert("draft"@.len() == 5);
    }
    assert("base"@ != "draft"@) by {
        assert("base"@.len() == 4);
        assert("draft"@.len() == 5);
    }
    assert("maintainer_can_modify"@ != "draft"@) by {
        assert("maintainer_can_modify"@.len() == 21);
        assert("draft"@.len() == 5);
    }
    assert("title"@ != "maintainer_can_modify"@) by {
        assert("title"@.len() == 5);
        assert("maintainer_can_modify"@.len() == 21);
    }
    assert("head"@ != "maintainer_can_modify"@) by {
        assert("head"@.len() == 4);
        assert("maintainer_can_modify"@.len() == 21);
    }
    assert("base"@ != "maintainer_can_modify"@) by {
        assert("base"@.len() == 4);
        assert("maintainer_can_modify"@.len() == 21);
    }
    let pm = payload_members(m);
    assert forall|i: int| 0 <= i < pm.len() implies (#[trigger] pm[i]).0 == "title"@
        || pm[i].0 == "head"@ || pm[i].0 == "base"@
        || (m.body is Some && pm[i].0 == "body"@)
        || (m.draft is Some && pm[i].0 == "draft"@)
        || (m.maintainer_can_modify is Some && pm[i].0 == "maintainer_can_modify"@) by {
        assert(pm[i] == payload_members(m)[i]);
    }
}

/// Idempotent overwrite: a configuration call replaces whatever an earlier
/// call to the same method stored, so only the last value survives.
pub proof fn lemma_overwrite_keeps_last(
    m: BuilderModel,
    earlier_body: Option<Seq<char>>,
    later_body: Option<Seq<char>>,
    earlier_draft: Option<bool>,
    later_draft: Option<bool>,
    earlier_mcm: Option<bool>,
    later_mcm: Option<bool>,
)
    ensures
        with_body(with_body(m, earlier_body), later_body) == with_body(m, later_body),
        with_draft(with_draft(m, earlier_draft), later_draft) == with_draft(m, later_draft),
        with_maintainer_can_modify(with_maintainer_can_modify(m, earlier_mcm), later_mcm)
            == with_maintainer_can_modify(m, later_mcm),
{
    assert(with_body(with_body(m, earlier_body), later_body) =~= with_body(m, later_body));
    assert(with_draft(with_draft(m, earlier_draft), later_draft) =~= with_draft(m, later_draft));
    assert(with_maintainer_can_modify(with_maintainer_can_modify(m, earlier_mcm), later_mcm)
        =~= with_maintainer_can_modify(m, later_mcm));
}

/// Required-field immutability, first half: no configuration call touches
/// the required fields or the repository coordinates.
pub proof fn lemma_config_preserves_required(
    m: BuilderModel,
    body: Option<Seq<char>>,
    draft: Option<bool>,
    maintainer_can_modify: Option<bool>,
)
    ensures
        with_body(m, body).title == m.title,
        with_body(m, body).head == m.head,
        with_body(m, body).base == m.base,
        with_body(m, body).owner == m.owner,
        with_body(m, body).repo == m.repo,
        with_draft(m, draft).title == m.title,
        with_draft(m, draft).head == m.head,
        with_draft(m, draft).base == m.base,
        with_draft(m, draft).owner == m.owner,
        with_draft(m, draft).repo == m.repo,
        with_maintainer_can_modify(m, maintainer_can_modify).title == m.title,
        with_maintainer_can_modify(m, maintainer_can_modify).head == m.head,
        with_maintainer_can_modify(m, maintainer_can_modify).base == m.base,
        with_maintainer_can_modify(m, maintainer_can_modify).owner == m.owner,
        with_maintainer_can_modify(m, maintainer_can_modify).repo == m.repo,
{
}

/// Required-field immutability, second half: whatever the optional fields
/// hold, the payload always opens with the three required members, each
/// holding the value fixed at construction, verbatim.
pub proof fn lemma_payload_required_members(m: BuilderModel)
    ensures
        payload_members(m).len() >= 3,
        payload_members(m)[0] == ("title"@, json_string(m.title)),
        payload_members(m)[1] == ("head"@, json_string(m.head)),
        payload_members(m)[2] == ("base"@, json_string(m.base)),
{
}

} // verus!
