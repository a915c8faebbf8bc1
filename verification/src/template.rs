//! The fixed page bodies, one for each kind of period.

use crate::title::PeriodKind;
use vstd::prelude::*;

verus! {

/// The body of a daily page: two section headers and the `#daily` tag.
pub const DAILY_TEXT: &'static str = "[* ルーティン]\n[* 感想]\n#daily";

/// The body of a weekly page: four section headers and the `#weekly` tag.
pub const WEEKLY_TEXT: &'static str = "[* 目標]\n[* 振り返り]\n[* 感想]\n[* 日記]\n#weekly";

/// The body that a new page of `kind` is created with.
pub open spec fn template_text(kind: PeriodKind) -> Seq<char> {
    match kind {
        PeriodKind::Daily => DAILY_TEXT@,
        PeriodKind::Weekly => WEEKLY_TEXT@,
    }
}

/// The hashtag that ends the body of a page of `kind`.
pub open spec fn tag_text(kind: PeriodKind) -> Seq<char> {
    match kind {
        PeriodKind::Daily => seq!['#', 'd', 'a', 'i', 'l', 'y'],
        PeriodKind::Weekly => seq!['#', 'w', 'e', 'e', 'k', 'l', 'y'],
    }
}

/// The body that a new page of `kind` is created with.
pub fn template_for(kind: PeriodKind) -> (body: &'static str)
    ensures
        body@ == template_text(kind),
{
    match kind {
        PeriodKind::Daily => DAILY_TEXT,
        PeriodKind::Weekly => WEEKLY_TEXT,
    }
}

/// Each body ends with the hashtag of its kind, on a line of its own.
pub proof fn lemma_template_ends_with_tag(kind: PeriodKind)
    ensures
        template_text(kind).len() > tag_text(kind).len(),
        template_text(kind).subrange(
            template_text(kind).len() - tag_text(kind).len(),
            template_text(kind).len() as int,
        ) == tag_text(kind),
        template_text(kind)[template_text(kind).len() - tag_text(kind).len() - 1] == '\n',
{
    reveal_strlit("[* ルーティン]\n[* 感想]\n#daily");
    reveal_strlit("[* 目標]\n[* 振り返り]\n[* 感想]\n[* 日記]\n#weekly");
    let body = template_text(kind);
    let tag = tag_text(kind);
    assert(body.subrange(body.len() - tag.len(), body.len() as int) =~= tag);
}

} // verus!
