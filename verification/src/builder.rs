//! The pull-request creation builder.
//!
//! The required fields — title, head and base — and the repository
//! coordinates are fixed at construction. The optional fields — body, draft
//! and maintainer-can-modify — start unset and are accumulated through
//! chained configuration calls, each of which consumes the builder and
//! returns the updated one. On demand the builder yields the destination
//! path and the exact JSON wire payload; an unset optional field is omitted
//! from the payload entirely. Network transport is the caller's concern.

use crate::json::append_member_bool;
use crate::json::append_member_str;
use crate::json::json_bool;
use crate::json::json_string;
use crate::json::lemma_join_push;
use crate::json::join_members;
use crate::json::object_text;
use vstd::prelude::*;
use vstd::string::StringExecFns;

verus! {

/// The mathematical state of a builder: the repository coordinates, the
/// required fields, and each optional field either set or absent.
#[verifier::ext_equal]
pub ghost struct BuilderModel {
    pub owner: Seq<char>,
    pub repo: Seq<char>,
    pub title: Seq<char>,
    pub head: Seq<char>,
    pub base: Seq<char>,
    pub body: Option<Seq<char>>,
    pub draft: Option<bool>,
    pub maintainer_can_modify: Option<bool>,
}

/// The model after a `body` configuration call.
pub open spec fn with_body(m: BuilderModel, body: Option<Seq<char>>) -> BuilderModel {
    BuilderModel { body, ..m }
}

/// The model after a `draft` configuration call.
pub open spec fn with_draft(m: BuilderModel, draft: Option<bool>) -> BuilderModel {
    BuilderModel { draft, ..m }
}

/// The model after a `maintainer_can_modify` configuration call.
pub open spec fn with_maintainer_can_modify(
    m: BuilderModel,
    maintainer_can_modify: Option<bool>,
) -> BuilderModel {
    BuilderModel { maintainer_can_modify, ..m }
}

/// The view of an optional owned string.
pub open spec fn opt_view(o: Option<String>) -> Option<Seq<char>> {
    match o {
        Some(s) => Some(s@),
        None => None,
    }
}

/// The members of the wire payload, in order: the three required fields
/// first, then each optional field that is set, each under its documented
/// key. An unset optional field contributes nothing.
pub open spec fn payload_members(m: BuilderModel) -> Seq<(Seq<char>, Seq<char>)> {
    seq![
        ("title"@, json_string(m.title)),
        ("head"@, json_string(m.head)),
        ("base"@, json_string(m.base)),
    ] + (match m.body {
        Some(b) => seq![("body"@, json_string(b))],
        None => Seq::empty(),
    }) + (match m.draft {
        Some(d) => seq![("draft"@, json_bool(d))],
        None => Seq::empty(),
    }) + (match m.maintainer_can_modify {
        Some(x) => seq![("maintainer_can_modify"@, json_bool(x))],
        None => Seq::empty(),
    })
}

/// The wire payload as text: the JSON object over `payload_members`.
pub open spec fn payload_view(m: BuilderModel) -> Seq<char> {
    object_text(payload_members(m))
}

/// The destination path for the create operation,
/// `/repos/{owner}/{repo}/pulls`.
pub open spec fn path_view(owner: Seq<char>, repo: Seq<char>) -> Seq<char> {
    "/repos/"@ + owner + "/"@ + repo + "/pulls"@
}

/// A builder for one request that creates a pull request: the repository's
/// owner and name address the destination, `title`, `head` and `base` are
/// the required fields, and the rest is optional.
pub struct CreatePullRequestBuilder {
    owner: String,
    repo: String,
    title: String,
    head: String,
    base: String,
    body: Option<String>,
    draft: Option<bool>,
    maintainer_can_modify: Option<bool>,
}

impl View for CreatePullRequestBuilder {
    type V = BuilderModel;

    closed spec fn view(&self) -> BuilderModel {
        BuilderModel {
            owner: self.owner@,
            repo: self.repo@,
            title: self.title@,
            head: self.head@,
            base: self.base@,
            body: opt_view(self.body),
            draft: self.draft,
            maintainer_can_modify: self.maintainer_can_modify,
        }
    }
}

impl CreatePullRequestBuilder {
    /// Creates a builder for the repository `owner/repo` with the required
    /// fields, and every optional field unset.
    /// - `title` — the title of the new pull request.
    /// - `head` — the branch where the changes are implemented, namespaced
    ///   as `username:branch` for a cross-repository pull request.
    /// - `base` — the branch the changes are to be pulled into; an existing
    ///   branch of the same repository. Neither format is validated here:
    ///   the server is authoritative.
    pub fn new(owner: String, repo: String, title: String, head: String, base: String) -> (r: Self)
        ensures
            r@.owner == owner@,
            r@.repo == repo@,
            r@.title == title@,
            r@.head == head@,
            r@.base == base@,
            r@.body is None,
            r@.draft is None,
            r@.maintainer_can_modify is None,
    {
        CreatePullRequestBuilder {
            owner,
            repo,
            title,
            head,
            base,
            body: None,
            draft: None,
            maintainer_can_modify: None,
        }
    }

    /// The contents of the pull request: sets or clears the body field.
    pub fn body(self, body: Option<String>) -> (r: Self)
        ensures
            r@ == with_body(self@, opt_view(body)),
    {
        let CreatePullRequestBuilder {
            owner,
            repo,
            title,
            head,
            base,
            body: _,
            draft,
            maintainer_can_modify,
        } = self;
        CreatePullRequestBuilder { owner, repo, title, head, base, body, draft, maintainer_can_modify }
    }

    /// Whether the pull request is a draft: sets or clears the flag.
    pub fn draft(self, draft: Option<bool>) -> (r: Self)
        ensures
            r@ == with_draft(self@, draft),
    {
        let CreatePullRequestBuilder {
            owner,
            repo,
            title,
            head,
            base,
            body,
            draft: _,
            maintainer_can_modify,
        } = self;
        CreatePullRequestBuilder { owner, repo, title, head, base, body, draft, maintainer_can_modify }
    }

    /// Whether maintainers can modify the pull request: sets or clears the
    /// flag.
    pub fn maintainer_can_modify(self, maintainer_can_modify: Option<bool>) -> (r: Self)
        ensures
            r@ == with_maintainer_can_modify(self@, maintainer_can_modify),
    {
        let CreatePullRequestBuilder {
            owner,
            repo,
            title,
            head,
            base,
            body,
            draft,
            maintainer_can_modify: _,
        } = self;
        CreatePullRequestBuilder { owner, repo, title, head, base, body, draft, maintainer_can_modify }
    }

    /// The destination path of the create operation.
    pub fn path(&self) -> (r: String)
        ensures
            r@ == path_view(self@.owner, self@.repo),
    {
        let mut out = String::new();
        out.append("/repos/");
        out.append(self.owner.as_str());
        out.append("/");
        out.append(self.repo.as_str());
        out.append("/pulls");
        proof {
            assert(out@ =~= path_view(self@.owner, self@.repo));
        }
        out
    }

    /// The wire payload of the create operation: a JSON object with the
    /// three required members first and a member for each optional field
    /// that is set, in the documented order, and nothing else.
    #[verifier::rlimit(100)]
    #[verifier::spinoff_prover]
    pub fn payload_json(&self) -> (r: String)
        ensures
            r@ == payload_view(self@),
    {
        let ghost m = self@;
        let mut out = String::new();
        out.append("{");
        append_member_str(&mut out, "title", self.title.as_str());
        let ghost mut ms: Seq<(Seq<char>, Seq<char>)> = seq![("title"@, json_string(m.title))];
        proof {
            assert(out@ =~= "{"@ + join_members(ms));
        }
        out.append(",");
        append_member_str(&mut out, "head", self.head.as_str());
        proof {
            lemma_join_push(ms, "head"@, json_string(m.head));
            ms = ms.push(("head"@, json_string(m.head)));
            assert(out@ =~= "{"@ + join_members(ms));
        }
        out.append(",");
        append_member_str(&mut out, "base", self.base.as_str());
        proof {
            lemma_join_push(ms, "base"@, json_string(m.base));
            ms = ms.push(("base"@, json_string(m.base)));
            assert(out@ =~= "{"@ + join_members(ms));
        }
        match &self.body {
            Some(b) => {
                out.append(",");
                append_member_str(&mut out, "body", b.as_str());
                proof {
                    lemma_join_push(ms, "body"@, json_string(b@));
                    ms = ms.push(("body"@, json_string(b@)));
                    assert(out@ =~= "{"@ + join_members(ms));
                }
            },
            None => {},
        }
        match self.draft {
            Some(d) => {
                out.append(",");
                append_member_bool(&mut out, "draft", d);
                proof {
                    lemma_join_push(ms, "draft"@, json_bool(d));
                    ms = ms.push(("draft"@, json_bool(d)));
                    assert(out@ =~= "{"@ + join_members(ms));
                }
            },
            None => {},
        }
        match self.maintainer_can_modify {
            Some(x) => {
                out.append(",");
                append_member_bool(&mut out, "maintainer_can_modify", x);
                proof {
                    lemma_join_push(ms, "maintainer_can_modify"@, json_bool(x));
                    ms = ms.push(("maintainer_can_modify"@, json_bool(x)));
                    assert(out@ =~= "{"@ + join_members(ms));
                }
            },
            None => {},
        }
        out.append("}");
        proof {
            assert(ms =~= payload_members(m));
            assert(out@ =~= payload_view(m));
        }
        out
    }
}

} // verus!
