//! Snapshots of a page: which nodes they hold, how a node is found again, and what an inspection
//! shows.

use crate::codec::{json_text, reads_back, write_json};
use crate::diagnostics::relation_is_smaller;
use crate::flow::{Locator, LocatorRelation, LocatorStrategy};
use crate::interactive::{SessionInspection, SessionPage};
use crate::journal::RelationKind;
use crate::json::{
    canonical, field, field_of, fields_view, gathered, record_of, set_field, set_field_reads_back,
    text_or_null, text_value, with_field, Json, JsonValue,
};
use crate::navigation::TargetFacts;
use crate::secrets::redacted;
use crate::snapshot::{Bounds, CapturedElement, LocatorIdentity, SemanticNode, SemanticState};
use crate::text::{
    bounded_text, is_white_space, leading_chars, optional_text, same_text, white_space,
};
use crate::values::{Redactor, Resolved};
use vstd::prelude::*;
use vstd::string::*;
use vstd::utf8::*;

verus! {

/// The depth of the accessibility tree of an inspection.
pub const INSPECT_AX_DEPTH: i64 = 8;

/// The largest number of nodes of an inspection.
pub const INSPECT_AX_NODES: usize = 500;

/// The largest number of bytes of the nodes of an inspection.
pub const INSPECT_AX_BYTES: usize = 262_144;

/// The largest number of pages of an inspection.
pub const INSPECT_PAGES: usize = 100;

/// The largest number of characters of a text of an inspection.
pub const INSPECT_TEXT_CHARS: usize = 16_384;

/// The time that an inspection or a capture may take, in nanoseconds.
pub const INSPECTION_TIMEOUT: u128 = 10_000_000_000;

/// The depth of the accessibility tree of a snapshot.
pub const SNAPSHOT_AX_DEPTH: i64 = 32;

/// The largest number of elements of a snapshot.
pub const SNAPSHOT_ELEMENTS: usize = 250;

/// The largest number of characters of a text of a snapshot.
pub const SNAPSHOT_TEXT_CHARS: usize = 500;

/// Tells what is needed of an element to find it again.
pub const SNAPSHOT_NODE_FUNCTION: &'static str = r#"function() {
    const rect = this.getBoundingClientRect();
    const style = getComputedStyle(this);
    const visible = this.isConnected && rect.width > 0 && rect.height > 0 &&
        style.visibility !== 'hidden' && style.display !== 'none' && Number(style.opacity) !== 0;
    const disabled = this.matches(':disabled') || this.closest('[inert]') !== null ||
        this.closest('[aria-disabled="true"]') !== null;
    const editable = this.isContentEditable ||
        (this instanceof HTMLTextAreaElement && !this.readOnly && !this.disabled) ||
        (this instanceof HTMLInputElement && !this.readOnly && !this.disabled);
    const path = [];
    for (let current = this; current instanceof Element && path.length < 8; current = current.parentElement) {
        if (current.id && !/\d{6,}/u.test(current.id)) {
            path.unshift(`#${CSS.escape(current.id)}`);
            break;
        }
        const tag = current.tagName.toLowerCase();
        const siblings = current.parentElement
            ? Array.from(current.parentElement.children).filter(child => child.tagName === current.tagName)
            : [];
        path.unshift(siblings.length > 1 ? `${tag}:nth-of-type(${siblings.indexOf(current) + 1})` : tag);
    }
    return {
        testId: this.getAttribute('data-testid'), id: this.id || null,
        label: this.labels ? Array.from(this.labels).map(label => label.innerText.trim()).filter(Boolean).join(' ') || null : null,
        ancestorTestId: this.parentElement?.closest('[data-testid]')?.getAttribute('data-testid') || null,
        ancestorId: this.parentElement?.closest('[id]')?.id || null,
        cssPath: path.join(' > '), visible, enabled: !disabled, editable,
        rect: { x: rect.x, y: rect.y, width: rect.width, height: rect.height }
    };
}"#;

/// A locator with a strategy and no further condition.
pub open spec fn is_simple(locator: Locator, strategy: LocatorStrategy) -> bool {
    &&& locator.strategy == strategy
    &&& locator.index is None
    &&& locator.checked is None
    &&& locator.selected is None
    &&& locator.focused is None
    &&& locator.enabled is None
    &&& locator.relations@.len() == 0
}

/// A locator with a strategy and no further condition.
pub fn simple_locator(strategy: LocatorStrategy) -> (locator: Locator)
    ensures
        is_simple(locator, strategy),
{
    Locator {
        strategy,
        index: None,
        checked: None,
        selected: None,
        focused: None,
        enabled: None,
        relations: Vec::new(),
    }
}

/// The number of digits in a text.
pub open spec fn digit_count(text: Seq<char>) -> nat
    decreases text.len(),
{
    if text.len() == 0 {
        0
    } else {
        digit_count(text.drop_last()) + if '0' <= text.last() <= '9' {
            1nat
        } else {
            0nat
        }
    }
}

/// Whether an identifier looks as if it stayed the same: it is not empty, has at most 100 bytes and
/// no white space, and where it has 8 bytes or more, fewer than 6 digits.
pub open spec fn stable_id(text: Seq<char>) -> bool {
    let bytes = encode_utf8(text).len();
    &&& 0 < bytes <= 100
    &&& forall|i: int| 0 <= i < text.len() ==> !white_space(#[trigger] text[i])
    &&& (bytes >= 8 ==> digit_count(text) < 6)
}

/// Whether an identifier looks as if it stayed the same.
pub fn stable_dom_id(value: &str) -> (stable: bool)
    ensures
        stable == stable_id(value@),
{
    let bytes = value.as_bytes().len();
    if bytes == 0 || bytes > 100 {
        return false;
    }
    let mut digits: usize = 0;
    let ghost text = value@;
    for ch in it: value.chars()
        invariant
            it.seq() == text,
            text == value@,
            digits == if digit_count(text.take(it.index() as int)) < 6 {
                digit_count(text.take(it.index() as int))
            } else {
                6
            },
            forall|i: int| 0 <= i < it.index() ==> !white_space(#[trigger] text[i]),
    {
        proof {
            assert(text.take(it.index() + 1).drop_last() == text.take(it.index() as int));
        }
        if is_white_space(ch) {
            return false;
        }
        if '0' <= ch && ch <= '9' && digits < 6 {
            digits += 1;
        }
    }
    assert(text.take(text.len() as int) == text);
    bytes < 8 || digits < 6
}

/// The fields that a strategy has in the record of a locator.
pub open spec fn strategy_fields(strategy: LocatorStrategy) -> Seq<(Seq<char>, Json)> {
    match strategy {
        LocatorStrategy::Css(value) => seq![("css"@, Json::Text(value.value@))],
        LocatorStrategy::TestId(value) => seq![("test_id"@, Json::Text(value.value@))],
        LocatorStrategy::Text { value, match_kind } => seq![
            (
                "text"@,
                Json::Record(
                    gathered(
                        seq![
                            ("value"@, Json::Text(value.value@)),
                            ("match"@, Json::Text(match_kind.label())),
                        ],
                    ),
                ),
            ),
        ],
        LocatorStrategy::Label(value) => seq![("label"@, Json::Text(value.value@))],
        LocatorStrategy::Role { value, name } => seq![
            (
                "role"@,
                Json::Record(
                    gathered(
                        seq![
                            ("value"@, Json::Text(value.value@)),
                            (
                                "name"@,
                                text_or_null(
                                    match name {
                                        Some(name) => Some(name.value@),
                                        None => None,
                                    },
                                ),
                            ),
                        ],
                    ),
                ),
            ),
        ],
    }
}

/// Fields with one more, if it is known.
pub open spec fn with_flag(
    fields: Seq<(Seq<char>, Json)>,
    name: Seq<char>,
    flag: Option<bool>,
) -> Seq<(Seq<char>, Json)> {
    match flag {
        Some(flag) => with_field(fields, name, Json::Bool(flag)),
        None => fields,
    }
}

/// The fields of a locator without its relations.
pub open spec fn own_fields(locator: Locator) -> Seq<(Seq<char>, Json)> {
    let fields = strategy_fields(locator.strategy);
    let fields = match locator.index {
        Some(index) => with_field(fields, "index"@, Json::Integer(index as int)),
        None => fields,
    };
    let fields = with_flag(fields, "checked"@, locator.checked);
    let fields = with_flag(fields, "selected"@, locator.selected);
    let fields = with_flag(fields, "focused"@, locator.focused);
    with_flag(fields, "enabled"@, locator.enabled)
}

/// The fields of a locator. Of two relations of one kind the later stands.
pub open spec fn locator_fields(locator: Locator) -> Seq<(Seq<char>, Json)>
    decreases locator,
{
    with_relations(own_fields(locator), locator.relations@)
}

/// Fields with those of relations.
pub open spec fn with_relations(
    fields: Seq<(Seq<char>, Json)>,
    relations: Seq<LocatorRelation>,
) -> Seq<(Seq<char>, Json)>
    decreases relations,
{
    if relations.len() == 0 {
        fields
    } else {
        with_field(
            with_relations(fields, relations.drop_last()),
            relations.last().kind.label(),
            Json::Record(locator_fields(*relations.last().locator)),
        )
    }
}

fn set_flag(fields: &mut Vec<(String, JsonValue)>, name: &str, flag: Option<bool>)
    ensures
        fields_view(final(fields)@) == with_flag(fields_view(old(fields)@), name@, flag),
{
    if let Some(flag) = flag {
        set_field(fields, name.to_owned(), JsonValue::Bool(flag));
    }
}

fn strategy_value(strategy: &LocatorStrategy) -> (fields: Vec<(String, JsonValue)>)
    ensures
        fields_view(fields@) == strategy_fields(*strategy),
{
    let fields = match strategy {
        LocatorStrategy::Css(value) => vec![field("css", text_value(value.value.as_str()))],
        LocatorStrategy::TestId(value) => vec![field("test_id", text_value(value.value.as_str()))],
        LocatorStrategy::Text { value, match_kind } => {
            let parts: Vec<(String, JsonValue)> = vec![
                field("value", text_value(value.value.as_str())),
                field("match", text_value(match_kind.name())),
            ];
            assert(fields_view(parts@) == seq![
                ("value"@, Json::Text(value.value@)),
                ("match"@, Json::Text(match_kind.label())),
            ]);
            vec![field("text", record_of(parts))]
        },
        LocatorStrategy::Label(value) => vec![field("label", text_value(value.value.as_str()))],
        LocatorStrategy::Role { value, name } => {
            let shown = match name {
                Some(name) => text_value(name.value.as_str()),
                None => JsonValue::Null,
            };
            let parts: Vec<(String, JsonValue)> = vec![
                field("value", text_value(value.value.as_str())),
                field("name", shown),
            ];
            assert(fields_view(parts@) == seq![
                ("value"@, Json::Text(value.value@)),
                (
                    "name"@,
                    text_or_null(
                        match *name {
                            Some(name) => Some(name.value@),
                            None => None,
                        },
                    ),
                ),
            ]);
            vec![field("role", record_of(parts))]
        },
    };
    assert(fields_view(fields@) =~= strategy_fields(*strategy));
    fields
}

/// The record that describes a locator.
pub fn locator_json(locator: &Locator) -> (value: JsonValue)
    ensures
        value@ == Json::Record(locator_fields(*locator)),
    decreases locator,
{
    broadcast use crate::json::group_json_views;

    let mut fields = strategy_value(&locator.strategy);
    if let Some(index) = locator.index {
        set_field(&mut fields, "index".to_owned(), JsonValue::Unsigned(index as u64));
    }
    set_flag(&mut fields, "checked", locator.checked);
    set_flag(&mut fields, "selected", locator.selected);
    set_flag(&mut fields, "focused", locator.focused);
    set_flag(&mut fields, "enabled", locator.enabled);
    let ghost own = own_fields(*locator);
    let mut i: usize = 0;
    assert(locator.relations@.take(0) == Seq::<LocatorRelation>::empty());
    while i < locator.relations.len()
        invariant
            i <= locator.relations.len(),
            fields_view(fields@) == with_relations(own, locator.relations@.take(i as int)),
        decreases locator.relations.len() - i,
    {
        let ghost taken = locator.relations@.take(i + 1);
        proof {
            relation_is_smaller(*locator, i as int);
            assert(taken.drop_last() == locator.relations@.take(i as int));
            assert(taken.last() == locator.relations@[i as int]);
        }
        let nested = locator_json(&locator.relations[i].locator);
        set_field(&mut fields, locator.relations[i].kind.as_str().to_owned(), nested);
        i += 1;
    }
    assert(locator.relations@.take(i as int) == locator.relations@);
    JsonValue::Record(fields)
}

/// The identity of an element that a locator finds.
pub open spec fn locator_identity(locator: Locator) -> Seq<char> {
    json_text(canonical(Json::Record(locator_fields(locator))))
}

/// The identity of an element that a locator finds: the text of the record of the locator.
pub fn identity_of(locator: &Locator) -> (identity: LocatorIdentity)
    ensures
        identity.text@ == locator_identity(*locator),
        reads_back(identity.text@, canonical(Json::Record(locator_fields(*locator)))),
{
    LocatorIdentity { text: write_json(&locator_json(locator)) }
}

/// What a page tells of an element. `id_selector` and `ancestor_id_selector` are the CSS selectors
/// of the identifiers.
#[derive(Debug)]
pub struct SnapshotNodeMetadata {
    pub test_id: Option<String>,
    pub id: Option<String>,
    pub id_selector: String,
    pub label: Option<String>,
    pub ancestor_test_id: Option<String>,
    pub ancestor_id: Option<String>,
    pub ancestor_id_selector: String,
    pub css_path: String,
    pub visible: bool,
    pub enabled: bool,
    pub editable: bool,
}

/// A way to find an element again.
#[derive(Debug)]
#[allow(inconsistent_fields)]
pub enum Candidate {
    TestId(String),
    Label(String),
    Css(String),
    Role { role: String, name: Option<String> },
    WithinTestId { role: String, name: Option<String>, ancestor: String },
    WithinCss { role: String, name: Option<String>, ancestor: String },
}

/// A way to find an element again, by its texts.
pub ghost enum CandidateView {
    TestId(Seq<char>),
    Label(Seq<char>),
    Css(Seq<char>),
    Role(Seq<char>, Option<Seq<char>>),
    WithinTestId(Seq<char>, Option<Seq<char>>, Seq<char>),
    WithinCss(Seq<char>, Option<Seq<char>>, Seq<char>),
}

impl View for Candidate {
    type V = CandidateView;

    open spec fn view(&self) -> CandidateView {
        match *self {
            Candidate::TestId(value) => CandidateView::TestId(value@),
            Candidate::Label(value) => CandidateView::Label(value@),
            Candidate::Css(value) => CandidateView::Css(value@),
            Candidate::Role { role, name } => CandidateView::Role(role@, optional_text(name)),
            Candidate::WithinTestId { role, name, ancestor } => CandidateView::WithinTestId(
                role@,
                optional_text(name),
                ancestor@,
            ),
            Candidate::WithinCss { role, name, ancestor } => CandidateView::WithinCss(
                role@,
                optional_text(name),
                ancestor@,
            ),
        }
    }
}

/// A value that may be shown.
pub open spec fn shown_value(value: Resolved<String>, text: Seq<char>) -> bool {
    value.value@ == text && !value.secret
}

/// Whether a strategy finds an element by its role and, if given, by its name.
pub open spec fn by_role(
    strategy: LocatorStrategy,
    role: Seq<char>,
    name: Option<Seq<char>>,
) -> bool {
    match strategy {
        LocatorStrategy::Role { value, name: held } => {
            &&& shown_value(value, role)
            &&& match (held, name) {
                (Some(held), Some(name)) => shown_value(held, name),
                (None, None) => true,
                _ => false,
            }
        },
        _ => false,
    }
}

/// Whether a strategy is by test identifier.
pub open spec fn by_test_id(strategy: LocatorStrategy, text: Seq<char>) -> bool {
    match strategy {
        LocatorStrategy::TestId(value) => shown_value(value, text),
        _ => false,
    }
}

/// Whether a strategy is by label.
pub open spec fn by_label(strategy: LocatorStrategy, text: Seq<char>) -> bool {
    match strategy {
        LocatorStrategy::Label(value) => shown_value(value, text),
        _ => false,
    }
}

/// Whether a strategy is by CSS selector.
pub open spec fn by_css(strategy: LocatorStrategy, text: Seq<char>) -> bool {
    match strategy {
        LocatorStrategy::Css(value) => shown_value(value, text),
        _ => false,
    }
}

/// Whether a locator has one relation: to stand within a simple locator.
pub open spec fn within_simple(locator: Locator) -> bool {
    &&& locator.relations@.len() == 1
    &&& locator.relations@[0].kind == RelationKind::Within
    &&& is_simple(
        *locator.relations@[0].locator,
        locator.relations@[0].locator.strategy,
    )
}

/// Whether a locator is that of a candidate, with an index or none.
pub open spec fn locator_of(
    locator: Locator,
    candidate: CandidateView,
    index: Option<usize>,
) -> bool {
    &&& locator.index == index
    &&& locator.checked is None
    &&& locator.selected is None
    &&& locator.focused is None
    &&& locator.enabled is None
    &&& match candidate {
        CandidateView::TestId(value) => by_test_id(locator.strategy, value)
            && locator.relations@.len() == 0,
        CandidateView::Label(value) => by_label(locator.strategy, value)
            && locator.relations@.len() == 0,
        CandidateView::Css(value) => by_css(locator.strategy, value) && locator.relations@.len()
            == 0,
        CandidateView::Role(role, name) => by_role(locator.strategy, role, name)
            && locator.relations@.len() == 0,
        CandidateView::WithinTestId(role, name, ancestor) => {
            &&& by_role(locator.strategy, role, name)
            &&& within_simple(locator)
            &&& by_test_id(locator.relations@[0].locator.strategy, ancestor)
        },
        CandidateView::WithinCss(role, name, ancestor) => {
            &&& by_role(locator.strategy, role, name)
            &&& within_simple(locator)
            &&& by_css(locator.relations@[0].locator.strategy, ancestor)
        },
    }
}

fn plain(text: &String) -> (value: Resolved<String>)
    ensures
        shown_value(value, text@),
{
    Resolved::new(text.clone(), false)
}

fn role_strategy(role: &String, name: &Option<String>) -> (strategy: LocatorStrategy)
    ensures
        by_role(strategy, role@, optional_text(*name)),
{
    let name = match name {
        Some(name) => Some(plain(name)),
        None => None,
    };
    LocatorStrategy::Role { value: plain(role), name }
}

fn within(strategy: LocatorStrategy, ancestor: LocatorStrategy) -> (locator: Locator)
    ensures
        locator.strategy == strategy,
        within_simple(locator),
        locator.relations@[0].locator.strategy == ancestor,
        locator.index is None,
        locator.checked is None,
        locator.selected is None,
        locator.focused is None,
        locator.enabled is None,
{
    let mut locator = simple_locator(strategy);
    locator.relations.push(
        LocatorRelation { kind: RelationKind::Within, locator: Box::new(simple_locator(ancestor)) },
    );
    locator
}

impl Candidate {
    /// The locator of the candidate.
    pub fn locator(&self, index: Option<usize>) -> (locator: Locator)
        ensures
            locator_of(locator, self@, index),
    {
        let mut locator = match self {
            Candidate::TestId(value) => simple_locator(LocatorStrategy::TestId(plain(value))),
            Candidate::Label(value) => simple_locator(LocatorStrategy::Label(plain(value))),
            Candidate::Css(value) => simple_locator(LocatorStrategy::Css(plain(value))),
            Candidate::Role { role, name } => simple_locator(role_strategy(role, name)),
            Candidate::WithinTestId { role, name, ancestor } => within(
                role_strategy(role, name),
                LocatorStrategy::TestId(plain(ancestor)),
            ),
            Candidate::WithinCss { role, name, ancestor } => within(
                role_strategy(role, name),
                LocatorStrategy::Css(plain(ancestor)),
            ),
        };
        locator.index = index;
        locator
    }
}

/// Whether a text gives nothing secret away.
pub open spec fn harmless(text: Seq<char>, secrets: Seq<Seq<char>>) -> bool {
    redacted(text, secrets) == text
}

/// A text that is not empty and gives nothing secret away.
pub open spec fn usable(text: Option<String>, secrets: Seq<Seq<char>>) -> bool {
    text is Some && text->0@.len() > 0 && harmless(text->0@, secrets)
}

/// An identifier that looks stable and gives nothing secret away.
pub open spec fn usable_id(text: Option<String>, secrets: Seq<Seq<char>>) -> bool {
    text is Some && stable_id(text->0@) && harmless(text->0@, secrets)
}

/// The ways to find an element again, best first: by test identifier, by role and name, by label, by
/// identifier, by CSS path, by role within an ancestor, and by role. Texts that give a secret away
/// are not used, except for the name within an ancestor.
pub open spec fn candidates_of(
    role: Seq<char>,
    name: Option<String>,
    metadata: SnapshotNodeMetadata,
    secrets: Seq<Seq<char>>,
) -> Seq<CandidateView> {
    let first = if usable(metadata.test_id, secrets) {
        seq![CandidateView::TestId(metadata.test_id->0@)]
    } else {
        Seq::empty()
    };
    let second = if usable(name, secrets) {
        first.push(CandidateView::Role(role, Some(name->0@)))
    } else {
        first
    };
    let third = if usable(metadata.label, secrets) {
        second.push(CandidateView::Label(metadata.label->0@))
    } else {
        second
    };
    let fourth = if usable_id(metadata.id, secrets) {
        third.push(CandidateView::Css(metadata.id_selector@))
    } else {
        third
    };
    let fifth = if metadata.css_path@.len() > 0 && harmless(metadata.css_path@, secrets) {
        fourth.push(CandidateView::Css(metadata.css_path@))
    } else {
        fourth
    };
    let sixth = if usable(metadata.ancestor_test_id, secrets) {
        fifth.push(
            CandidateView::WithinTestId(role, optional_text(name), metadata.ancestor_test_id->0@),
        )
    } else if usable_id(metadata.ancestor_id, secrets) {
        fifth.push(
            CandidateView::WithinCss(role, optional_text(name), metadata.ancestor_id_selector@),
        )
    } else {
        fifth
    };
    sixth.push(CandidateView::Role(role, None))
}

fn is_harmless(text: &str, redactor: &Redactor) -> (unchanged: bool)
    ensures
        unchanged == harmless(text@, redactor.secrets@),
{
    let clean = redactor.redact(text);
    same_text(clean.as_str(), text)
}

fn is_usable(text: &Option<String>, redactor: &Redactor) -> (fits: bool)
    ensures
        fits == usable(*text, redactor.secrets@),
{
    match text {
        Some(text) => !is_blank(text.as_str()) && is_harmless(text.as_str(), redactor),
        None => false,
    }
}

fn is_usable_id(text: &Option<String>, redactor: &Redactor) -> (fits: bool)
    ensures
        fits == usable_id(*text, redactor.secrets@),
{
    match text {
        Some(text) => stable_dom_id(text.as_str()) && is_harmless(text.as_str(), redactor),
        None => false,
    }
}

fn is_blank(text: &str) -> (blank: bool)
    ensures
        blank == (text@.len() == 0),
{
    proof {
        reveal_strlit("");
        assert(text@.len() == 0 ==> text@ == ""@);
    }
    same_text(text, "")
}

/// The views of candidates.
pub open spec fn candidates_view(candidates: Seq<Candidate>) -> Seq<CandidateView> {
    candidates.map_values(|candidate: Candidate| candidate@)
}

fn push_candidate(candidates: &mut Vec<Candidate>, candidate: Candidate)
    ensures
        candidates_view(final(candidates)@) == candidates_view(old(candidates)@).push(candidate@),
{
    candidates.push(candidate);
    assert(candidates_view(candidates@) =~= candidates_view(old(candidates)@).push(candidate@));
}

fn copy_of(text: &Option<String>) -> (copy: String)
    requires
        text is Some,
    ensures
        copy@ == text->0@,
{
    match text {
        Some(text) => text.clone(),
        None => String::new(),
    }
}

fn copied(text: &Option<String>) -> (copy: Option<String>)
    ensures
        optional_text(copy) == optional_text(*text),
{
    match text {
        Some(text) => Some(text.clone()),
        None => None,
    }
}

/// The ways to find an element again, best first.
pub fn locator_candidates(
    role: &str,
    name: &Option<String>,
    metadata: &SnapshotNodeMetadata,
    redactor: &Redactor,
) -> (candidates: Vec<Candidate>)
    ensures
        candidates_view(candidates@) == candidates_of(role@, *name, *metadata, redactor.secrets@),
{
    let mut candidates: Vec<Candidate> = Vec::new();
    assert(candidates_view(candidates@) =~= Seq::<CandidateView>::empty());
    if is_usable(&metadata.test_id, redactor) {
        push_candidate(&mut candidates, Candidate::TestId(copy_of(&metadata.test_id)));
        assert(candidates_view(candidates@) =~= seq![
            CandidateView::TestId(metadata.test_id->0@),
        ]);
    }
    if is_usable(name, redactor) {
        push_candidate(
            &mut candidates,
            Candidate::Role { role: role.to_owned(), name: copied(name) },
        );
    }
    if is_usable(&metadata.label, redactor) {
        push_candidate(&mut candidates, Candidate::Label(copy_of(&metadata.label)));
    }
    if is_usable_id(&metadata.id, redactor) {
        push_candidate(&mut candidates, Candidate::Css(metadata.id_selector.clone()));
    }
    if !is_blank(metadata.css_path.as_str()) && is_harmless(metadata.css_path.as_str(), redactor) {
        push_candidate(&mut candidates, Candidate::Css(metadata.css_path.clone()));
    }
    if is_usable(&metadata.ancestor_test_id, redactor) {
        push_candidate(
            &mut candidates,
            Candidate::WithinTestId {
                role: role.to_owned(),
                name: copied(name),
                ancestor: copy_of(&metadata.ancestor_test_id),
            },
        );
    } else if is_usable_id(&metadata.ancestor_id, redactor) {
        push_candidate(
            &mut candidates,
            Candidate::WithinCss {
                role: role.to_owned(),
                name: copied(name),
                ancestor: metadata.ancestor_id_selector.clone(),
            },
        );
    }
    push_candidate(&mut candidates, Candidate::Role { role: role.to_owned(), name: None });
    candidates
}

/// How far the search for a locator has come.
#[derive(Debug, Clone, Copy, PartialEq, Eq, Structural)]
pub enum SearchStage {
    Trying(usize),
    Counting,
    Found(usize, Option<usize>),
}

/// The search for a locator of an element: each candidate is resolved in turn, and the first that
/// resolves to that element alone is taken. Where none does, the last is taken, with the place of
/// the element among those it resolves to.
#[derive(Debug)]
pub struct LocatorSearch {
    pub backend_node_id: i64,
    pub candidates: Vec<Candidate>,
    pub stage: SearchStage,
}

/// The place of the first occurrence of an element.
pub open spec fn first_place(resolved: Seq<i64>, node: i64) -> Option<usize> {
    if resolved.contains(node) {
        Some(first_index(resolved, node) as usize)
    } else {
        None
    }
}

/// The place of the first occurrence of an element, or the length.
pub open spec fn first_index(resolved: Seq<i64>, node: i64) -> nat
    decreases resolved.len(),
{
    if resolved.len() == 0 || resolved[0] == node {
        0
    } else {
        1 + first_index(resolved.skip(1), node)
    }
}

/// The stage after a candidate was resolved.
pub open spec fn search_step(
    stage: SearchStage,
    count: nat,
    node: i64,
    resolved: Seq<i64>,
) -> SearchStage {
    match stage {
        SearchStage::Trying(at) => if resolved == seq![node] {
            SearchStage::Found(at, None)
        } else if at + 1 < count {
            SearchStage::Trying((at + 1) as usize)
        } else {
            SearchStage::Counting
        },
        SearchStage::Counting => SearchStage::Found(
            (count - 1) as usize,
            first_place(resolved, node),
        ),
        SearchStage::Found(at, index) => SearchStage::Found(at, index),
    }
}

proof fn first_index_is_first(resolved: Seq<i64>, node: i64, at: int)
    requires
        0 <= at <= resolved.len(),
        forall|i: int| 0 <= i < at ==> #[trigger] resolved[i] != node,
        at < resolved.len() ==> resolved[at] == node,
    ensures
        first_index(resolved, node) == at,
    decreases at,
{
    if at > 0 {
        assert forall|i: int| 0 <= i < at - 1 implies #[trigger] resolved.skip(1)[i] != node by {
            assert(resolved.skip(1)[i] == resolved[i + 1]);
        }
        first_index_is_first(resolved.skip(1), node, at - 1);
    }
}

/// The place of an element among those that were resolved.
fn find_place(resolved: &Vec<i64>, node: i64) -> (place: Option<usize>)
    ensures
        place == first_place(resolved@, node),
{
    let mut at: usize = 0;
    while at < resolved.len()
        invariant
            at <= resolved.len(),
            forall|i: int| 0 <= i < at ==> #[trigger] resolved@[i] != node,
        decreases resolved.len() - at,
    {
        if resolved[at] == node {
            proof {
                first_index_is_first(resolved@, node, at as int);
            }
            return Some(at);
        }
        at += 1;
    }
    None
}

/// Whether an element was found alone.
pub fn resolves_to(resolved: &Vec<i64>, node: i64) -> (alone: bool)
    ensures
        alone == (resolved@ == seq![node]),
{
    let alone = resolved.len() == 1 && resolved[0] == node;
    proof {
        if alone {
            assert(resolved@ =~= seq![node]);
        }
    }
    alone
}

impl LocatorSearch {
    /// The search is at one of its candidates.
    pub open spec fn wf(&self) -> bool {
        &&& self.candidates@.len() > 0
        &&& match self.stage {
            SearchStage::Trying(at) => at < self.candidates@.len(),
            SearchStage::Counting => true,
            SearchStage::Found(at, _) => at < self.candidates@.len(),
        }
    }

    /// Starts the search. A snapshot that leaves nodes out prefers the CSS path, untried.
    pub fn start(
        backend_node_id: i64,
        role: &str,
        name: &Option<String>,
        metadata: &SnapshotNodeMetadata,
        prefer_css_path: bool,
        redactor: &Redactor,
    ) -> (search: LocatorSearch)
        ensures
            search.wf(),
            search.backend_node_id == backend_node_id,
            ({
                let preferred = prefer_css_path && metadata.css_path@.len() > 0 && harmless(
                    metadata.css_path@,
                    redactor.secrets@,
                );
                &&& candidates_view(search.candidates@) == if preferred {
                    seq![CandidateView::Css(metadata.css_path@)]
                } else {
                    candidates_of(role@, *name, *metadata, redactor.secrets@)
                }
                &&& search.stage == if preferred {
                    SearchStage::Found(0, None)
                } else {
                    SearchStage::Trying(0)
                }
            }),
    {
        if prefer_css_path && !is_blank(metadata.css_path.as_str()) && is_harmless(
            metadata.css_path.as_str(),
            redactor,
        ) {
            let candidates: Vec<Candidate> = vec![Candidate::Css(metadata.css_path.clone())];
            assert(candidates_view(candidates@) =~= seq![CandidateView::Css(metadata.css_path@)]);
            return LocatorSearch {
                backend_node_id,
                candidates,
                stage: SearchStage::Found(0, None),
            };
        }
        let candidates = locator_candidates(role, name, metadata, redactor);
        assert(candidates_view(candidates@).len() == candidates@.len());
        LocatorSearch { backend_node_id, candidates, stage: SearchStage::Trying(0) }
    }

    /// The locator to resolve next, or the one that was found.
    pub fn locator(&self) -> (locator: Locator)
        requires
            self.wf(),
        ensures
            match self.stage {
                SearchStage::Trying(at) => locator_of(locator, self.candidates@[at as int]@, None),
                SearchStage::Counting => locator_of(locator, self.candidates@.last()@, None),
                SearchStage::Found(at, index) => locator_of(
                    locator,
                    self.candidates@[at as int]@,
                    index,
                ),
            },
    {
        match self.stage {
            SearchStage::Trying(at) => self.candidates[at].locator(None),
            SearchStage::Counting => self.candidates[self.candidates.len() - 1].locator(None),
            SearchStage::Found(at, index) => self.candidates[at].locator(index),
        }
    }

    /// Takes the elements that the locator resolved to.
    pub fn next(&mut self, resolved: &Vec<i64>)
        requires
            old(self).wf(),
        ensures
            final(self).wf(),
            final(self).backend_node_id == old(self).backend_node_id,
            final(self).candidates == old(self).candidates,
            final(self).stage == search_step(
                old(self).stage,
                old(self).candidates@.len(),
                old(self).backend_node_id,
                resolved@,
            ),
    {
        match self.stage {
            SearchStage::Trying(at) => {
                if resolves_to(resolved, self.backend_node_id) {
                    self.stage = SearchStage::Found(at, None);
                } else if at < self.candidates.len() - 1 {
                    self.stage = SearchStage::Trying(at + 1);
                } else {
                    self.stage = SearchStage::Counting;
                }
            },
            SearchStage::Counting => {
                let place = find_place(resolved, self.backend_node_id);
                self.stage = SearchStage::Found(self.candidates.len() - 1, place);
            },
            SearchStage::Found(_, _) => {},
        }
    }
}

/// How many resolutions a search still takes at most.
pub open spec fn search_left(stage: SearchStage, count: nat) -> nat {
    match stage {
        SearchStage::Trying(at) => (count - at + 1) as nat,
        SearchStage::Counting => 1,
        SearchStage::Found(_, _) => 0,
    }
}

/// Every resolution brings a search nearer to its end.
pub proof fn searches_end(stage: SearchStage, count: nat, node: i64, resolved: Seq<i64>)
    requires
        match stage {
            SearchStage::Trying(at) => at < count <= usize::MAX,
            SearchStage::Counting => true,
            SearchStage::Found(_, _) => false,
        },
    ensures
        search_left(search_step(stage, count, node, resolved), count) < search_left(stage, count),
{
}

/// No candidate gives a secret away in the part that it finds an element by, unless the selector of
/// a harmless identifier does, or the name of an element within an ancestor.
pub proof fn candidates_keep_secrets(
    role: Seq<char>,
    name: Option<String>,
    metadata: SnapshotNodeMetadata,
    secrets: Seq<Seq<char>>,
    i: int,
)
    requires
        0 <= i < candidates_of(role, name, metadata, secrets).len(),
    ensures
        match candidates_of(role, name, metadata, secrets)[i] {
            CandidateView::TestId(value) => harmless(value, secrets),
            CandidateView::Label(value) => harmless(value, secrets),
            CandidateView::Css(value) => harmless(value, secrets) || value
                == metadata.id_selector@,
            CandidateView::Role(_, name) => name is Some ==> harmless(name->0, secrets),
            CandidateView::WithinTestId(_, _, ancestor) => harmless(ancestor, secrets),
            CandidateView::WithinCss(_, _, ancestor) => ancestor == metadata.ancestor_id_selector@,
        },
{
}

/// A property of a node of the accessibility tree.
#[derive(Debug, Clone, Copy, PartialEq, Eq, Structural)]
pub enum AxName {
    Focusable,
    Checked,
    Selected,
    Focused,
    Expanded,
    Pressed,
    Other,
}

/// A node of the accessibility tree.
#[derive(Debug)]
pub struct AxNode {
    pub ignored: bool,
    pub backend_node_id: Option<i64>,
    pub role: Option<JsonValue>,
    pub name: Option<JsonValue>,
    pub value: Option<JsonValue>,
    pub description: Option<JsonValue>,
    pub properties: Vec<(AxName, Option<JsonValue>)>,
}

/// The text that a value is, if it is one.
pub open spec fn ax_text_of(value: Option<JsonValue>) -> Option<Seq<char>> {
    match value {
        Some(JsonValue::Text(text)) => Some(text@),
        _ => None,
    }
}

/// The text that a value is, if it is one.
pub fn ax_text(value: &Option<JsonValue>) -> (text: Option<&str>)
    ensures
        match text {
            Some(text) => ax_text_of(*value) == Some(text@),
            None => ax_text_of(*value) is None,
        },
{
    match value {
        Some(JsonValue::Text(text)) => Some(text.as_str()),
        _ => None,
    }
}

/// The value of the first property of a name.
pub open spec fn property_of(properties: Seq<(AxName, Option<JsonValue>)>, name: AxName) -> Option<
    JsonValue,
>
    decreases properties.len(),
{
    if properties.len() == 0 {
        None
    } else if properties[0].0 == name {
        properties[0].1
    } else {
        property_of(properties.skip(1), name)
    }
}

/// The value of the first property of a name, where it is a truth value.
pub open spec fn flag_of(node: AxNode, name: AxName) -> Option<bool> {
    match property_of(node.properties@, name) {
        Some(JsonValue::Bool(flag)) => Some(flag),
        _ => None,
    }
}

/// The value of the first property of a name, where it is a truth value.
pub fn ax_bool(node: &AxNode, name: AxName) -> (flag: Option<bool>)
    ensures
        flag == flag_of(*node, name),
{
    let mut i: usize = 0;
    assert(node.properties@.skip(0) == node.properties@);
    while i < node.properties.len()
        invariant
            i <= node.properties.len(),
            property_of(node.properties@, name) == property_of(
                node.properties@.skip(i as int),
                name,
            ),
        decreases node.properties.len() - i,
    {
        proof {
            let rest = node.properties@.skip(i as int);
            assert(rest[0] == node.properties@[i as int]);
            assert(rest.skip(1) == node.properties@.skip(i + 1));
        }
        if node.properties[i].0 == name {
            return match &node.properties[i].1 {
                Some(JsonValue::Bool(flag)) => Some(*flag),
                _ => None,
            };
        }
        i += 1;
    }
    None
}

/// Whether elements of a role can be acted on.
pub open spec fn interactive_role(role: Seq<char>) -> bool {
    ||| role == "button"@
    ||| role == "checkbox"@
    ||| role == "combobox"@
    ||| role == "link"@
    ||| role == "listbox"@
    ||| role == "menuitem"@
    ||| role == "option"@
    ||| role == "radio"@
    ||| role == "searchbox"@
    ||| role == "slider"@
    ||| role == "spinbutton"@
    ||| role == "switch"@
    ||| role == "tab"@
    ||| role == "textbox"@
    ||| role == "treeitem"@
}

fn is_interactive(role: &str) -> (interactive: bool)
    ensures
        interactive == interactive_role(role@),
{
    same_text(role, "button") || same_text(role, "checkbox") || same_text(role, "combobox") || same_text(role, "link") || same_text(role, "listbox") || same_text(role, "menuitem") || same_text(role, "option") || same_text(role, "radio") || same_text(role, "searchbox") || same_text(role, "slider") || same_text(role, "spinbutton") || same_text(role, "switch") || same_text(role, "tab") || same_text(role, "textbox") || same_text(role, "treeitem")
}

/// Whether a snapshot tells of a node: it is not ignored, stands for an element, and can be acted on
/// or focused.
pub open spec fn told_in_snapshot(node: AxNode) -> bool {
    &&& !node.ignored
    &&& node.backend_node_id is Some
    &&& (match ax_text_of(node.role) {
        Some(role) => interactive_role(role),
        None => false,
    } || flag_of(node, AxName::Focusable) == Some(true))
}

/// Whether a snapshot tells of a node.
pub fn snapshot_ax_node(node: &AxNode) -> (told: bool)
    ensures
        told == told_in_snapshot(*node),
{
    if node.ignored || node.backend_node_id.is_none() {
        return false;
    }
    if let Some(role) = ax_text(&node.role) {
        if is_interactive(role) {
            return true;
        }
    }
    match ax_bool(node, AxName::Focusable) {
        Some(focusable) => focusable,
        None => false,
    }
}

/// The nodes that a snapshot tells of, and whether there are more.
pub open spec fn nodes_told(nodes: Seq<AxNode>) -> Seq<AxNode> {
    nodes.filter(|node: AxNode| told_in_snapshot(node))
}

/// The nodes that a snapshot tells of, at most 250 of them, and whether there are more.
pub fn snapshot_nodes(nodes: Vec<AxNode>) -> (chosen: (Vec<AxNode>, bool))
    ensures
        ({
            let told = nodes_told(nodes@);
            &&& chosen.1 == (told.len() > SNAPSHOT_ELEMENTS)
            &&& chosen.0@ == if chosen.1 {
                told.take(SNAPSHOT_ELEMENTS as int)
            } else {
                told
            }
        }),
{
    broadcast use vstd::seq_lib::group_filter_ensures;

    let ghost all = nodes@;
    let ghost telling = |node: AxNode| told_in_snapshot(node);
    let mut chosen: Vec<AxNode> = Vec::new();
    let mut truncated = false;
    assert(all.take(0).filter(telling) =~= Seq::<AxNode>::empty()) by {
        reveal(Seq::filter);
    }
    for node in it: nodes
        invariant
            it.seq() == all,
            telling == (|node: AxNode| told_in_snapshot(node)),
            truncated == (all.take(it.index() as int).filter(telling).len() > SNAPSHOT_ELEMENTS),
            chosen@ == if truncated {
                all.take(it.index() as int).filter(telling).take(SNAPSHOT_ELEMENTS as int)
            } else {
                all.take(it.index() as int).filter(telling)
            },
    {
        proof {
            let i = it.index() as int;
            let grown = all.take(i + 1);
            assert(grown.drop_last() == all.take(i));
            assert(grown.last() == all[i]);
            reveal(Seq::filter);
            let before = grown.drop_last().filter(telling);
            let after = grown.filter(telling);
            assert(after == if telling(all[i]) {
                before.push(all[i])
            } else {
                before
            });
            if telling(all[i]) && before.len() >= SNAPSHOT_ELEMENTS {
                assert(after.take(SNAPSHOT_ELEMENTS as int) =~= before.take(
                    SNAPSHOT_ELEMENTS as int,
                ));
                assert(before.len() == SNAPSHOT_ELEMENTS ==> before.take(SNAPSHOT_ELEMENTS as int)
                    =~= before);
            }
        }
        if snapshot_ax_node(&node) {
            if chosen.len() < SNAPSHOT_ELEMENTS {
                chosen.push(node);
            } else {
                truncated = true;
            }
        }
    }
    assert(all.take(all.len() as int) == all);
    (chosen, truncated)
}

/// A text as a snapshot tells it: none where it is empty, and cut.
pub open spec fn snapshot_text(text: Option<Seq<char>>) -> Option<Seq<char>> {
    match text {
        Some(text) => if text.len() > 0 {
            Some(leading_chars(text, SNAPSHOT_TEXT_CHARS as nat))
        } else {
            None
        },
        None => None,
    }
}

/// A text as a snapshot tells it.
pub fn bounded_snapshot_text(value: Option<&str>) -> (text: Option<String>)
    ensures
        optional_text(text) == snapshot_text(
            match value {
                Some(value) => Some(value@),
                None => None,
            },
        ),
{
    match value {
        Some(value) => if is_blank(value) {
            None
        } else {
            Some(bounded_text(value, SNAPSHOT_TEXT_CHARS))
        },
        None => None,
    }
}

/// A text as a snapshot tells it, without secrets.
pub open spec fn clean_snapshot_text(
    text: Option<Seq<char>>,
    secrets: Seq<Seq<char>>,
) -> Option<Seq<char>> {
    match snapshot_text(text) {
        Some(text) => Some(redacted(text, secrets)),
        None => None,
    }
}

fn clean_text(value: &Option<JsonValue>, redactor: &Redactor) -> (text: Option<String>)
    ensures
        optional_text(text) == clean_snapshot_text(ax_text_of(*value), redactor.secrets@),
{
    match bounded_snapshot_text(ax_text(value)) {
        Some(text) => Some(redactor.redact(text.as_str())),
        None => None,
    }
}

/// The role of a node.
pub open spec fn role_of(node: AxNode) -> Seq<char> {
    match ax_text_of(node.role) {
        Some(role) => role,
        None => "generic"@,
    }
}

/// The role of a node.
pub fn node_role(node: &AxNode) -> (role: &str)
    ensures
        role@ == role_of(*node),
{
    match ax_text(&node.role) {
        Some(role) => role,
        None => "generic",
    }
}

/// The name by which a node is searched for.
pub fn node_name(node: &AxNode) -> (name: Option<String>)
    ensures
        optional_text(name) == snapshot_text(ax_text_of(node.name)),
{
    bounded_snapshot_text(ax_text(&node.name))
}

/// The states of a node: from the page whether it is enabled and editable, from the accessibility
/// tree the others.
pub open spec fn state_of(node: AxNode, metadata: SnapshotNodeMetadata) -> SemanticState {
    SemanticState {
        enabled: Some(metadata.enabled),
        editable: Some(metadata.editable),
        checked: flag_of(node, AxName::Checked),
        selected: flag_of(node, AxName::Selected),
        focused: flag_of(node, AxName::Focused),
        expanded: flag_of(node, AxName::Expanded),
        pressed: flag_of(node, AxName::Pressed),
    }
}

/// The states of a node.
pub fn snapshot_state(node: &AxNode, metadata: &SnapshotNodeMetadata) -> (state: SemanticState)
    ensures
        state == state_of(*node, *metadata),
{
    SemanticState {
        enabled: Some(metadata.enabled),
        editable: Some(metadata.editable),
        checked: ax_bool(node, AxName::Checked),
        selected: ax_bool(node, AxName::Selected),
        focused: ax_bool(node, AxName::Focused),
        expanded: ax_bool(node, AxName::Expanded),
        pressed: ax_bool(node, AxName::Pressed),
    }
}

/// Whether this is how a node is captured.
pub open spec fn captures(
    element: CapturedElement,
    node: AxNode,
    backend_node_id: i64,
    metadata: SnapshotNodeMetadata,
    locator: Locator,
    bounds: Bounds,
    secrets: Seq<Seq<char>>,
) -> bool {
    &&& element.identity.text@ == locator_identity(locator)
    &&& element.backend_node_id == backend_node_id
    &&& element.parent is None
    &&& element.node.role@ == role_of(node)
    &&& optional_text(element.node.name) == clean_snapshot_text(ax_text_of(node.name), secrets)
    &&& optional_text(element.node.value) == clean_snapshot_text(ax_text_of(node.value), secrets)
    &&& optional_text(element.node.description) == clean_snapshot_text(
        ax_text_of(node.description),
        secrets,
    )
    &&& element.node.bounds == Some(bounds)
    &&& element.node.visible == Some(metadata.visible)
    &&& element.node.state == state_of(node, metadata)
}

/// Captures a node that a locator finds.
pub fn capture_element(
    node: &AxNode,
    backend_node_id: i64,
    metadata: &SnapshotNodeMetadata,
    locator: &Locator,
    bounds: Bounds,
    redactor: &Redactor,
) -> (element: CapturedElement)
    ensures
        captures(
            element,
            *node,
            backend_node_id,
            *metadata,
            *locator,
            bounds,
            redactor.secrets@,
        ),
{
    CapturedElement {
        identity: identity_of(locator),
        backend_node_id,
        parent: None,
        node: SemanticNode {
            role: node_role(node).to_owned(),
            name: clean_text(&node.name, redactor),
            value: clean_text(&node.value, redactor),
            description: clean_text(&node.description, redactor),
            bounds: Some(bounds),
            visible: Some(metadata.visible),
            state: snapshot_state(node, metadata),
        },
    }
}

/// Whether a capture that failed is tried again: where the page was changing, until the deadline.
pub fn capture_again(retryable: bool, now: u128, deadline: u128) -> (again: bool)
    ensures
        again == (retryable && now < deadline),
{
    retryable && now < deadline
}

/// A text as an inspection shows it.
pub fn bounded_inspection_text(value: &str) -> (text: String)
    ensures
        text@ == leading_chars(value@, INSPECT_TEXT_CHARS as nat),
{
    bounded_text(value, INSPECT_TEXT_CHARS)
}

/// A target of the browser, with what its page shows.
#[derive(Debug)]
pub struct TargetPage {
    pub target: TargetFacts,
    pub url: String,
    pub title: String,
}

/// Whether a target is a page of a browser context.
pub open spec fn is_context_page(page: TargetPage, context: Seq<char>) -> bool {
    &&& page.target.kind@ == "page"@
    &&& page.target.context is Some
    &&& page.target.context->0@ == context
}

/// Whether this is how an inspection shows a page.
pub open spec fn shows_page(shown: SessionPage, page: TargetPage, active: Seq<char>) -> bool {
    &&& shown.active == (page.target.id@ == active)
    &&& shown.url@ == leading_chars(page.url@, INSPECT_TEXT_CHARS as nat)
    &&& shown.title@ == leading_chars(page.title@, INSPECT_TEXT_CHARS as nat)
}

/// The pages of a browser context, at most 100.
pub open spec fn context_pages(pages: Seq<TargetPage>, context: Seq<char>) -> Seq<TargetPage> {
    let held = pages.filter(|page: TargetPage| is_context_page(page, context));
    if held.len() > INSPECT_PAGES {
        held.take(INSPECT_PAGES as int)
    } else {
        held
    }
}

fn in_context(page: &TargetPage, context: &str) -> (belongs: bool)
    ensures
        belongs == is_context_page(*page, context@),
{
    match &page.target.context {
        Some(held) => same_text(page.target.kind.as_str(), "page") && same_text(
            held.as_str(),
            context,
        ),
        None => false,
    }
}

/// The pages that an inspection shows.
pub fn inspect_pages(pages: &Vec<TargetPage>, context: &str, active: &str) -> (shown: Vec<
    SessionPage,
>)
    ensures
        ({
            let held = context_pages(pages@, context@);
            &&& shown@.len() == held.len()
            &&& forall|i: int|
                0 <= i < held.len() ==> shows_page(#[trigger] shown@[i], held[i], active@)
        }),
{
    let ghost belonging = |page: TargetPage| is_context_page(page, context@);
    let mut shown: Vec<SessionPage> = Vec::new();
    let mut i: usize = 0;
    assert(pages@.take(0).filter(belonging) =~= Seq::<TargetPage>::empty()) by {
        reveal(Seq::filter);
    }
    while i < pages.len()
        invariant
            i <= pages.len(),
            belonging == (|page: TargetPage| is_context_page(page, context@)),
            shown@.len() == if pages@.take(i as int).filter(belonging).len() > INSPECT_PAGES {
                INSPECT_PAGES as nat
            } else {
                pages@.take(i as int).filter(belonging).len()
            },
            forall|k: int|
                0 <= k < shown@.len() ==> shows_page(
                    #[trigger] shown@[k],
                    pages@.take(i as int).filter(belonging)[k],
                    active@,
                ),
        decreases pages.len() - i,
    {
        proof {
            let grown = pages@.take(i + 1);
            assert(grown.drop_last() == pages@.take(i as int));
            assert(grown.last() == pages@[i as int]);
            reveal(Seq::filter);
        }
        if shown.len() < INSPECT_PAGES && in_context(&pages[i], context) {
            shown.push(
                SessionPage {
                    active: same_text(pages[i].target.id.as_str(), active),
                    url: bounded_inspection_text(pages[i].url.as_str()),
                    title: bounded_inspection_text(pages[i].title.as_str()),
                },
            );
        }
        i += 1;
    }
    assert(pages@.take(pages@.len() as int) == pages@);
    shown
}

/// The bytes of a list of the first nodes, given the bytes of each.
pub open spec fn list_bytes(lengths: Seq<usize>, count: nat) -> nat
    decreases count,
{
    if count == 0 {
        2
    } else {
        list_bytes(lengths, (count - 1) as nat) + lengths[count - 1] as nat + 1
    }
}

/// How many nodes an inspection shows, given the bytes of each: as many as fit, from the first on.
pub fn nodes_shown(lengths: &Vec<usize>) -> (count: usize)
    ensures
        count <= lengths@.len(),
        count <= INSPECT_AX_NODES,
        list_bytes(lengths@, count as nat) <= INSPECT_AX_BYTES,
        count < lengths@.len() && count < INSPECT_AX_NODES ==> list_bytes(
            lengths@,
            (count + 1) as nat,
        ) > INSPECT_AX_BYTES,
{
    let mut count: usize = 0;
    let mut bytes: usize = 2;
    while count < lengths.len() && count < INSPECT_AX_NODES
        invariant
            count <= lengths.len(),
            count <= INSPECT_AX_NODES,
            bytes == list_bytes(lengths@, count as nat),
            bytes <= INSPECT_AX_BYTES,
        decreases lengths.len() - count,
    {
        let left: usize = INSPECT_AX_BYTES - bytes;
        if lengths[count] >= left {
            return count;
        }
        bytes += lengths[count] + 1;
        count += 1;
    }
    count
}

/// What an inspection shows. The frame's address is shown where a frame is active.
pub fn inspection(
    url: Option<String>,
    title: &str,
    pages: Vec<SessionPage>,
    frame_active: bool,
    frame_url: Option<String>,
    accessibility: Option<JsonValue>,
    screenshot: Option<String>,
) -> (shown: SessionInspection)
    ensures
        shown.url@ == match url {
            Some(url) => leading_chars(url@, INSPECT_TEXT_CHARS as nat),
            None => Seq::empty(),
        },
        shown.title@ == leading_chars(title@, INSPECT_TEXT_CHARS as nat),
        shown.pages == pages,
        shown.active_frame == if frame_active {
            frame_url
        } else {
            None
        },
        shown.accessibility == accessibility,
        shown.screenshot == screenshot,
{
    let url = match url {
        Some(url) => bounded_inspection_text(url.as_str()),
        None => String::new(),
    };
    SessionInspection {
        url,
        title: bounded_inspection_text(title),
        pages,
        active_frame: if frame_active {
            frame_url
        } else {
            None
        },
        accessibility,
        screenshot,
    }
}

/// An identifier is stable if it has no white space, has between one and a hundred bytes, and is not mostly a
/// number: from eight bytes on it has fewer than six digits.
pub proof fn numbers_make_identifiers_unstable(value: &str, stable: bool, i: int)
    requires
        call_ensures(stable_dom_id, (value,), stable),
    ensures
        ({
            let bytes = encode_utf8(value@).len();
            let digits = value@.filter(|c: char| '0' <= c <= '9').len();
            &&& bytes == 0 || bytes > 100 ==> !stable
            &&& 0 <= i < value@.len() && white_space(value@[i]) ==> !stable
            &&& bytes >= 8 && digits >= 6 ==> !stable
            &&& 0 < bytes <= 100 && (bytes < 8 || digits < 6) && (forall|k: int|
                0 <= k < value@.len() ==> !white_space(#[trigger] value@[k])) ==> stable
        }),
{
    digits_are_counted(value@);
}

proof fn digits_are_counted(text: Seq<char>)
    ensures
        digit_count(text) == text.filter(|c: char| '0' <= c <= '9').len(),
    decreases text.len(),
{
    reveal(Seq::filter);
    if text.len() > 0 {
        digits_are_counted(text.drop_last());
    }
}

/// The ways to name an element come in a fixed order: by its test identifier, by role and name, by its label,
/// by its identifier, by its path, within an ancestor, and at last by its role alone. Each is there exactly if
/// what it needs is, and shows no secret.
pub proof fn ways_to_name_an_element_come_in_order(
    role: &str,
    name: Option<String>,
    metadata: SnapshotNodeMetadata,
    redactor: Redactor,
    candidates: Vec<Candidate>,
)
    requires
        call_ensures(locator_candidates, (role, &name, &metadata, &redactor), candidates),
    ensures
        ({
            let secrets = redactor.secrets@;
            let fit = |text: Option<String>|
                text is Some && text->0@.len() > 0 && redacted(text->0@, secrets) == text->0@;
            let stable = |text: Option<String>|
                text is Some && stable_id(text->0@) && redacted(text->0@, secrets) == text->0@;
            let test: int = if fit(metadata.test_id) {
                1
            } else {
                0
            };
            let named: int = if fit(name) {
                1
            } else {
                0
            };
            let label: int = if fit(metadata.label) {
                1
            } else {
                0
            };
            let id: int = if stable(metadata.id) {
                1
            } else {
                0
            };
            let path: int = if metadata.css_path@.len() > 0 && redacted(metadata.css_path@, secrets)
                == metadata.css_path@ {
                1
            } else {
                0
            };
            let inner: int = if fit(metadata.ancestor_test_id) || stable(metadata.ancestor_id) {
                1
            } else {
                0
            };
            let all = test + named + label + id + path + inner;
            &&& candidates@.len() == all + 1
            &&& candidates@[all]@ == CandidateView::Role(role@, None)
            &&& test == 1 ==> candidates@[0]@ == CandidateView::TestId(metadata.test_id->0@)
            &&& named == 1 ==> candidates@[test]@ == CandidateView::Role(role@, Some(name->0@))
            &&& label == 1 ==> candidates@[test + named]@ == CandidateView::Label(
                metadata.label->0@,
            )
            &&& id == 1 ==> candidates@[test + named + label]@ == CandidateView::Css(
                metadata.id_selector@,
            )
            &&& path == 1 ==> candidates@[test + named + label + id]@ == CandidateView::Css(
                metadata.css_path@,
            )
            &&& fit(metadata.ancestor_test_id) ==> candidates@[all - 1]@
                == CandidateView::WithinTestId(
                role@,
                optional_text(name),
                metadata.ancestor_test_id->0@,
            )
            &&& !fit(metadata.ancestor_test_id) && stable(metadata.ancestor_id)
                ==> candidates@[all - 1]@ == CandidateView::WithinCss(
                role@,
                optional_text(name),
                metadata.ancestor_id_selector@,
            )
        }),
{
    let shown = candidates_view(candidates@);
    assert(shown.len() == candidates@.len());
    assert(forall|i: int| 0 <= i < shown.len() ==> shown[i] == (#[trigger] candidates@[i])@);
}

/// A way to name an element is tried as it is: with no condition but its own, and with the index that is
/// asked for.
pub proof fn candidates_are_tried_as_they_are(
    candidate: Candidate,
    index: Option<usize>,
    locator: Locator,
)
    requires
        call_ensures(Candidate::locator, (&candidate, index), locator),
    ensures
        locator.index == index,
        locator.checked is None && locator.selected is None && locator.focused is None
            && locator.enabled is None,
        match candidate {
            Candidate::TestId(text) => (locator.strategy matches LocatorStrategy::TestId(value)
                && value.value@ == text@ && !value.secret) && locator.relations@.len() == 0,
            Candidate::Label(text) => (locator.strategy matches LocatorStrategy::Label(value)
                && value.value@ == text@ && !value.secret) && locator.relations@.len() == 0,
            Candidate::Css(text) => (locator.strategy matches LocatorStrategy::Css(value)
                && value.value@ == text@ && !value.secret) && locator.relations@.len() == 0,
            Candidate::Role { role, name } => (locator.strategy matches LocatorStrategy::Role {
                value,
                name: held,
            } && value.value@ == role@ && (held is Some <==> name is Some) && (name is Some
                ==> held->0.value@ == name->0@)) && locator.relations@.len() == 0,
            Candidate::WithinTestId { role, name, ancestor } => (locator.strategy matches
                LocatorStrategy::Role { value, .. } && value.value@ == role@)
                && locator.relations@.len() == 1 && locator.relations@[0].kind is Within && (
            locator.relations@[0].locator.strategy matches LocatorStrategy::TestId(value)
                && value.value@ == ancestor@),
            Candidate::WithinCss { role, name, ancestor } => (locator.strategy matches
                LocatorStrategy::Role { value, .. } && value.value@ == role@)
                && locator.relations@.len() == 1 && locator.relations@[0].kind is Within && (
            locator.relations@[0].locator.strategy matches LocatorStrategy::Css(value)
                && value.value@ == ancestor@),
        },
{
}

/// A search tries one way after the other and ends with the first that leads to the element alone. Where none
/// does, it ends with the last way and the element's place among what that finds, if it is there.
pub proof fn searches_end_with_the_first_way_that_fits(
    at: usize,
    count: nat,
    node: i64,
    resolved: Seq<i64>,
    i: int,
)
    requires
        at < count <= usize::MAX,
    ensures
        ({
            let next = search_step(SearchStage::Trying(at), count, node, resolved);
            let last = search_step(SearchStage::Counting, count, node, resolved);
            let alone = resolved.len() == 1 && resolved[0] == node;
            &&& alone <==> next == SearchStage::Found(at, None)
            &&& !alone && at + 1 < count ==> next == SearchStage::Trying((at + 1) as usize)
            &&& !alone && at + 1 == count ==> next == SearchStage::Counting
            &&& last matches SearchStage::Found(way, place) && way == count - 1 && (
                resolved.len() <= usize::MAX ==> match place {
                    Some(place) => place < resolved.len() && resolved[place as int] == node && (0
                        <= i < place ==> resolved[i] != node),
                    None => 0 <= i < resolved.len() ==> resolved[i] != node,
                })
        }),
{
    if resolved.len() == 1 && resolved[0] == node {
        assert(resolved =~= seq![node]);
    }
    if resolved == seq![node] {
        assert(resolved.len() == 1 && resolved[0] == node);
    }
    place_is_first(resolved, node, i);
    if 0 <= i < resolved.len() && resolved[i] == node {
        assert(resolved.contains(node));
    }
}

proof fn place_is_first(resolved: Seq<i64>, node: i64, i: int)
    ensures
        first_index(resolved, node) <= resolved.len(),
        0 <= i < first_index(resolved, node) ==> resolved[i] != node,
        resolved.contains(node) ==> first_index(resolved, node) < resolved.len() && resolved[first_index(
            resolved,
            node,
        ) as int] == node,
    decreases resolved.len(),
{
    if resolved.len() > 0 && resolved[0] != node {
        let rest = resolved.skip(1);
        place_is_first(rest, node, i - 1);
        if 0 < i < resolved.len() {
            assert(rest[i - 1] == resolved[i]);
        }
        if resolved.contains(node) {
            let k = resolved.index_of(node);
            assert(rest[k - 1] == node);
        }
    }
}

/// A search starts with every way there is, unless the path is preferred and can be shown: then it is found at
/// once.
pub proof fn preferred_paths_are_taken_at_once(
    backend_node_id: i64,
    role: &str,
    name: Option<String>,
    metadata: SnapshotNodeMetadata,
    prefer: bool,
    redactor: Redactor,
    search: LocatorSearch,
    candidates: Vec<Candidate>,
)
    requires
        call_ensures(
            LocatorSearch::start,
            (backend_node_id, role, &name, &metadata, prefer, &redactor),
            search,
        ),
        call_ensures(locator_candidates, (role, &name, &metadata, &redactor), candidates),
    ensures
        ({
            let path = metadata.css_path@;
            let preferred = prefer && path.len() > 0 && redacted(path, redactor.secrets@) == path;
            &&& search.backend_node_id == backend_node_id
            &&& preferred ==> search.stage == SearchStage::Found(0, None)
                && search.candidates@.len() == 1 && search.candidates@[0]@ == CandidateView::Css(path)
            &&& !preferred ==> search.stage == SearchStage::Trying(0) && candidates_view(
                search.candidates@,
            ) == candidates_view(candidates@)
        }),
{
    let shown = candidates_view(search.candidates@);
    assert(shown.len() == search.candidates@.len());
    if shown.len() > 0 {
        assert(shown[0] == search.candidates@[0]@);
    }
}

/// A node is shown in a snapshot exactly if it is not ignored, has a node of the document, and can be acted on:
/// by its role, or because it takes the focus.
pub proof fn nodes_that_can_be_acted_on_are_shown(node: AxNode, told: bool)
    requires
        call_ensures(snapshot_ax_node, (&node,), told),
    ensures
        node.ignored ==> !told,
        node.backend_node_id is None ==> !told,
        !node.ignored && node.backend_node_id is Some && (ax_text_of(node.role) matches Some(role)
            && (role == "button"@ || role == "checkbox"@ || role == "combobox"@ || role == "link"@
            || role == "listbox"@ || role == "menuitem"@ || role == "option"@ || role == "radio"@
            || role == "searchbox"@ || role == "slider"@ || role == "spinbutton"@ || role
            == "switch"@ || role == "tab"@ || role == "textbox"@ || role == "treeitem"@)) ==> told,
        !node.ignored && node.backend_node_id is Some && flag_of(node, AxName::Focusable) == Some(
            true,
        ) ==> told,
        ax_text_of(node.role) is None && flag_of(node, AxName::Focusable) != Some(true) ==> !told,
{
}

/// A property of a node is told by the first that has its name.
pub proof fn the_first_property_counts(node: AxNode, name: AxName, flag: Option<bool>, at: int)
    requires
        call_ensures(ax_bool, (&node, name), flag),
        0 <= at <= node.properties@.len(),
        forall|i: int| 0 <= i < at ==> (#[trigger] node.properties@[i]).0 != name,
        at < node.properties@.len() ==> node.properties@[at].0 == name,
    ensures
        at == node.properties@.len() ==> flag is None,
        at < node.properties@.len() ==> match node.properties@[at].1 {
            Some(JsonValue::Bool(held)) => flag == Some(held),
            _ => flag is None,
        },
{
    property_is_first(node.properties@, name, at);
}

proof fn property_is_first(properties: Seq<(AxName, Option<JsonValue>)>, name: AxName, at: int)
    requires
        0 <= at <= properties.len(),
        forall|i: int| 0 <= i < at ==> (#[trigger] properties[i]).0 != name,
        at < properties.len() ==> properties[at].0 == name,
    ensures
        property_of(properties, name) == if at < properties.len() {
            properties[at].1
        } else {
            None
        },
    decreases at,
{
    if at > 0 {
        assert(properties[0].0 != name);
        let rest = properties.skip(1);
        assert forall|i: int| 0 <= i < at - 1 implies (#[trigger] rest[i]).0 != name by {
            assert(rest[i] == properties[i + 1]);
        }
        property_is_first(rest, name, at - 1);
    }
}

/// A snapshot has at most 250 elements, each of them a node that is to be shown, and says when there were
/// more. Where all are to be shown and fit, all are there, in order.
pub proof fn snapshots_are_bounded(nodes: Vec<AxNode>, chosen: (Vec<AxNode>, bool), i: int)
    requires
        call_ensures(snapshot_nodes, (nodes,), chosen),
    ensures
        chosen.0@.len() <= 250,
        chosen.1 ==> chosen.0@.len() == 250,
        0 <= i < chosen.0@.len() ==> told_in_snapshot(chosen.0@[i]) && nodes@.contains(
            chosen.0@[i],
        ),
        (forall|k: int| 0 <= k < nodes@.len() ==> told_in_snapshot(#[trigger] nodes@[k]))
            && nodes@.len() <= 250 ==> chosen.0@ == nodes@ && !chosen.1,
        (forall|k: int| 0 <= k < nodes@.len() ==> told_in_snapshot(#[trigger] nodes@[k]))
            && nodes@.len() > 250 ==> chosen.1 && chosen.0@ == nodes@.take(250),
{
    let told = nodes_told(nodes@);
    nodes_told_are_nodes(nodes@);
    if 0 <= i < chosen.0@.len() {
        assert(chosen.0@[i] == told[i]);
    }
}

proof fn nodes_told_are_nodes(nodes: Seq<AxNode>)
    ensures
        nodes_told(nodes).len() <= nodes.len(),
        forall|i: int|
            0 <= i < nodes_told(nodes).len() ==> told_in_snapshot(#[trigger] nodes_told(nodes)[i])
                && nodes.contains(nodes_told(nodes)[i]),
        (forall|k: int| 0 <= k < nodes.len() ==> told_in_snapshot(#[trigger] nodes[k]))
            ==> nodes_told(nodes) == nodes,
    decreases nodes.len(),
{
    reveal(Seq::filter);
    if nodes.len() > 0 {
        let fewer = nodes.drop_last();
        nodes_told_are_nodes(fewer);
        let told = nodes_told(nodes);
        assert forall|i: int| 0 <= i < told.len() implies told_in_snapshot(#[trigger] told[i])
            && nodes.contains(told[i]) by {
            if i < nodes_told(fewer).len() {
                assert(told[i] == nodes_told(fewer)[i]);
                let k = fewer.index_of(told[i]);
                assert(nodes[k] == told[i]);
            } else {
                assert(nodes[nodes.len() - 1] == told[i]);
            }
        }
        if forall|k: int| 0 <= k < nodes.len() ==> told_in_snapshot(#[trigger] nodes[k]) {
            assert forall|k: int| 0 <= k < fewer.len() implies told_in_snapshot(
                #[trigger] fewer[k],
            ) by {
                assert(fewer[k] == nodes[k]);
            }
            assert(fewer.push(nodes.last()) =~= nodes);
        }
    }
}

/// A captured element says what its node and the document say of it: its role, its texts without secrets and
/// cut to five hundred characters, and its state.
pub proof fn captured_elements_say_what_is_known(
    node: AxNode,
    backend_node_id: i64,
    metadata: SnapshotNodeMetadata,
    locator: Locator,
    bounds: Bounds,
    redactor: Redactor,
    element: CapturedElement,
    identity: LocatorIdentity,
)
    requires
        call_ensures(
            capture_element,
            (&node, backend_node_id, &metadata, &locator, bounds, &redactor),
            element,
        ),
        call_ensures(identity_of, (&locator,), identity),
    ensures
        ({
            let said = |text: Option<String>, given: Option<JsonValue>|
                match given {
                    Some(JsonValue::Text(whole)) => if whole@.len() == 0 {
                        text is None
                    } else {
                        text is Some && text->0@ == redacted(
                            if whole@.len() <= 500 {
                                whole@
                            } else {
                                whole@.take(500)
                            },
                            redactor.secrets@,
                        )
                    },
                    _ => text is None,
                };
            &&& element.backend_node_id == backend_node_id
            &&& element.identity.text@ == identity.text@
            &&& element.parent is None
            &&& said(element.node.name, node.name)
            &&& said(element.node.value, node.value)
            &&& said(element.node.description, node.description)
            &&& (node.role matches Some(JsonValue::Text(role)) ==> element.node.role@ == role@)
            &&& (ax_text_of(node.role) is None ==> element.node.role@ == "generic"@)
            &&& element.node.bounds == Some(bounds)
            &&& element.node.visible == Some(metadata.visible)
            &&& element.node.state.enabled == Some(metadata.enabled)
            &&& element.node.state.editable == Some(metadata.editable)
            &&& element.node.state.checked == flag_of(node, AxName::Checked)
            &&& element.node.state.selected == flag_of(node, AxName::Selected)
            &&& element.node.state.focused == flag_of(node, AxName::Focused)
            &&& element.node.state.expanded == flag_of(node, AxName::Expanded)
            &&& element.node.state.pressed == flag_of(node, AxName::Pressed)
        }),
{
}

/// A capture is repeated exactly if its failure is passing and time is left.
pub proof fn passing_failures_are_captured_again(
    retryable: bool,
    now: u128,
    deadline: u128,
    again: bool,
)
    requires
        call_ensures(capture_again, (retryable, now, deadline), again),
    ensures
        again ==> retryable && now < deadline,
        retryable && now < deadline ==> again,
{
}

/// Of the pages those of the context are shown, a hundred at most, with bounded texts; only the active one is
/// active.
pub proof fn pages_of_the_context_are_shown(
    pages: Vec<TargetPage>,
    context: &str,
    active: &str,
    shown: Vec<SessionPage>,
)
    requires
        call_ensures(inspect_pages, (&pages, context, active), shown),
    ensures
        shown@.len() <= 100,
        pages@.len() == 0 ==> shown@.len() == 0,
        pages@.len() == 1 && pages@[0].target.kind@ == "page"@ && pages@[0].target.context is Some
            && pages@[0].target.context->0@ == context@ ==> shown@.len() == 1 && (shown@[0].active
            <==> pages@[0].target.id@ == active@) && (pages@[0].url@.len() <= 16_384
            ==> shown@[0].url@ == pages@[0].url@) && (pages@[0].title@.len() <= 16_384
            ==> shown@[0].title@ == pages@[0].title@) && shown@[0].url@.len() <= 16_384
            && shown@[0].title@.len() <= 16_384,
        pages@.len() == 1 && (pages@[0].target.kind@ != "page"@ || pages@[0].target.context is None
            || pages@[0].target.context->0@ != context@) ==> shown@.len() == 0,
{
    reveal(Seq::filter);
    let pred = |page: TargetPage| is_context_page(page, context@);
    if pages@.len() == 1 {
        assert(pages@.drop_last() =~= Seq::<TargetPage>::empty());
        assert(pages@.drop_last().filter(pred) =~= Seq::<TargetPage>::empty());
        assert(pages@.last() == pages@[0]);
        if is_context_page(pages@[0], context@) {
            assert(pages@.filter(pred) =~= seq![pages@[0]]);
            assert(context_pages(pages@, context@) =~= seq![pages@[0]]);
        } else {
            assert(pages@.filter(pred) =~= Seq::<TargetPage>::empty());
        }
    }
}

/// Of the nodes as many are shown as fit: at most five hundred, and together at most 262144 bytes as a list,
/// and no fewer.
pub proof fn as_many_nodes_are_shown_as_fit(lengths: Vec<usize>, count: usize)
    requires
        call_ensures(nodes_shown, (&lengths,), count),
    ensures
        count <= 500,
        lengths@.len() == 1 && lengths@[0] + 3 <= 262_144 ==> count == 1,
        lengths@.len() >= 1 && lengths@[0] + 3 > 262_144 ==> count == 0,
        lengths@.len() == 2 && lengths@[0] + lengths@[1] + 4 <= 262_144 ==> count == 2,
        lengths@.len() == 2 && lengths@[0] + lengths@[1] + 4 > 262_144 ==> count < 2,
{
    reveal_with_fuel(list_bytes, 4);
    if lengths@.len() >= 1 && count >= 1 {
        lists_grow(lengths@, 1, count as nat);
    }
    if lengths@.len() == 2 && count == 2 {
        assert(list_bytes(lengths@, 2) == lengths@[0] + lengths@[1] + 4);
    }
}

proof fn lists_grow(lengths: Seq<usize>, fewer: nat, count: nat)
    requires
        fewer <= count <= lengths.len(),
    ensures
        list_bytes(lengths, fewer) <= list_bytes(lengths, count),
    decreases count,
{
    if fewer < count {
        lists_grow(lengths, fewer, (count - 1) as nat);
    }
}

/// A simple locator is written as what it looks for and nothing else.
pub proof fn simple_locators_are_written_plainly(locator: Locator, value: JsonValue)
    requires
        call_ensures(locator_json, (&locator,), value),
        locator.index is None && locator.checked is None && locator.selected is None
            && locator.focused is None && locator.enabled is None && locator.relations@.len() == 0,
    ensures
        locator.strategy matches LocatorStrategy::Css(text) ==> value@ == Json::Record(
            seq![("css"@, Json::Text(text.value@))],
        ),
        locator.strategy matches LocatorStrategy::TestId(text) ==> value@ == Json::Record(
            seq![("test_id"@, Json::Text(text.value@))],
        ),
        locator.strategy matches LocatorStrategy::Label(text) ==> value@ == Json::Record(
            seq![("label"@, Json::Text(text.value@))],
        ),
{
}

/// What narrows a locator is written under its own name, and what it looks for stays.
pub proof fn what_narrows_a_locator_is_written(locator: Locator, index: usize, value: JsonValue)
    requires
        call_ensures(locator_json, (&locator,), value),
        locator.relations@.len() == 0,
    ensures
        locator.enabled matches Some(flag) ==> field_of(value@->Record_0, "enabled"@) == Some(
            Json::Bool(flag),
        ),
        locator.focused matches Some(flag) ==> locator.enabled is None ==> field_of(
            value@->Record_0,
            "focused"@,
        ) == Some(Json::Bool(flag)),
        locator.selected matches Some(flag) ==> locator.enabled is None && locator.focused is None
            ==> field_of(value@->Record_0, "selected"@) == Some(Json::Bool(flag)),
        locator.checked matches Some(flag) ==> locator.enabled is None && locator.focused is None
            && locator.selected is None ==> field_of(value@->Record_0, "checked"@) == Some(
            Json::Bool(flag),
        ),
        locator.index matches Some(index) ==> locator.enabled is None && locator.focused is None
            && locator.selected is None && locator.checked is None ==> field_of(
            value@->Record_0,
            "index"@,
        ) == Some(Json::Integer(index as int)),
{
    let first = strategy_fields(locator.strategy);
    let second = match locator.index {
        Some(index) => with_field(first, "index"@, Json::Integer(index as int)),
        None => first,
    };
    let third = with_flag(second, "checked"@, locator.checked);
    let fourth = with_flag(third, "selected"@, locator.selected);
    let fifth = with_flag(fourth, "focused"@, locator.focused);
    if let Some(index) = locator.index {
        set_field_reads_back(first, "index"@, Json::Integer(index as int), "index"@);
    }
    if let Some(flag) = locator.checked {
        set_field_reads_back(second, "checked"@, Json::Bool(flag), "checked"@);
    }
    if let Some(flag) = locator.selected {
        set_field_reads_back(third, "selected"@, Json::Bool(flag), "selected"@);
    }
    if let Some(flag) = locator.focused {
        set_field_reads_back(fourth, "focused"@, Json::Bool(flag), "focused"@);
    }
    if let Some(flag) = locator.enabled {
        set_field_reads_back(fifth, "enabled"@, Json::Bool(flag), "enabled"@);
    }
}

/// An inspection shows the page as it was seen, its texts cut to 16384 characters, and a frame only where one is
/// active.
pub proof fn inspections_show_the_page(
    url: Option<String>,
    title: &str,
    pages: Vec<SessionPage>,
    frame_active: bool,
    frame_url: Option<String>,
    accessibility: Option<JsonValue>,
    screenshot: Option<String>,
    shown: SessionInspection,
)
    requires
        call_ensures(
            inspection,
            (url, title, pages, frame_active, frame_url, accessibility, screenshot),
            shown,
        ),
    ensures
        url is None ==> shown.url@.len() == 0,
        url is Some && url->0@.len() <= 16_384 ==> shown.url@ == url->0@,
        shown.url@.len() <= 16_384 && shown.title@.len() <= 16_384,
        title@.len() <= 16_384 ==> shown.title@ == title@,
        shown.pages == pages,
        frame_active ==> shown.active_frame == frame_url,
        !frame_active ==> shown.active_frame is None,
        shown.accessibility == accessibility,
        shown.screenshot == screenshot,
{
}

/// An element is found alone exactly if it is all that was found.
pub proof fn elements_are_found_alone(resolved: Vec<i64>, node: i64, alone: bool)
    requires
        call_ensures(resolves_to, (&resolved, node), alone),
    ensures
        alone <==> resolved@.len() == 1 && resolved@[0] == node,
{
    if resolved@.len() == 1 && resolved@[0] == node {
        assert(resolved@ =~= seq![node]);
    }
    if alone {
        assert(resolved@.len() == 1 && resolved@[0] == node);
    }
}

/// A simple locator looks for one thing and is narrowed by nothing.
pub proof fn simple_locators_are_narrowed_by_nothing(strategy: LocatorStrategy, locator: Locator)
    requires
        call_ensures(simple_locator, (strategy,), locator),
    ensures
        locator.strategy == strategy,
        locator.index is None && locator.checked is None && locator.selected is None
            && locator.focused is None && locator.enabled is None,
        locator.relations@.len() == 0,
{
}

} // verus!
