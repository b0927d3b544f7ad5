//! Snapshots of a page for agents: element references, their validity, and differences between
//! snapshots.

use crate::number::{same_real, Real64};
use crate::text::{
    all_digits, chars_of, copy_optional, decimal, decimal_round_trip, decimal_text, number_of,
    optional_text, quote, quoted, same_text,
};
use crate::text_map::TextMap;
use std::collections::{BTreeMap, VecDeque};
use vstd::prelude::*;
use vstd::string::*;

verus! {

/// A reference to an element of a snapshot. Numbers start at one.
#[derive(Debug, Clone, Copy, PartialEq, Eq, PartialOrd, Ord, Hash, Structural)]
pub struct ElementRef {
    value: u64,
}

impl View for ElementRef {
    type V = u64;

    closed spec fn view(&self) -> u64 {
        self.value
    }
}

/// The reference with a number.
pub closed spec fn reference_to(number: u64) -> ElementRef {
    ElementRef { value: number }
}

/// A reference is known by its number.
pub broadcast proof fn references_have_their_number(number: u64)
    ensures
        #[trigger] reference_to(number)@ == number,
{
}

/// A text that is no element reference.
#[derive(Debug, Clone, PartialEq, Eq)]
pub struct InvalidElementRef {
    pub text: String,
}

/// The text of the element reference with a number.
pub open spec fn numbered_reference(number: u64) -> Seq<char> {
    seq!['e'] + decimal(number as nat)
}

/// The text of an element reference.
pub open spec fn reference_text(reference: ElementRef) -> Seq<char> {
    numbered_reference(reference@)
}

/// The number that std reads from a text: digits, after at most one plus sign, of a value that 64
/// bits hold.
pub open spec fn read_number(text: Seq<char>) -> Option<nat> {
    let digits = if text.len() > 0 && text[0] == '+' {
        text.skip(1)
    } else {
        text
    };
    if digits.len() > 0 && all_digits(digits) && number_of(digits) <= u64::MAX {
        Some(number_of(digits))
    } else {
        None
    }
}

/// The number of the reference that a text stands for.
pub open spec fn reference_of(text: Seq<char>) -> Option<u64> {
    if text.len() > 0 && text[0] == 'e' {
        match read_number(text.skip(1)) {
            Some(number) => if number > 0 {
                Some(number as u64)
            } else {
                None
            },
            None => None,
        }
    } else {
        None
    }
}

fn parse_digits(chars: &Vec<char>, from: usize) -> (number: Option<u64>)
    requires
        from <= chars.len(),
    ensures
        match number {
            Some(number) => {
                let digits = chars@.skip(from as int);
                digits.len() > 0 && all_digits(digits) && number_of(digits) == number
            },
            None => {
                let digits = chars@.skip(from as int);
                !(digits.len() > 0 && all_digits(digits) && number_of(digits) <= u64::MAX)
            },
        },
{
    let ghost digits = chars@.skip(from as int);
    if from == chars.len() {
        return None;
    }
    let mut number: u64 = 0;
    let mut i: usize = from;
    assert(digits.take(0) == Seq::<char>::empty());
    while i < chars.len()
        invariant
            from <= i <= chars.len(),
            digits == chars@.skip(from as int),
            all_digits(digits.take(i - from)),
            number_of(digits.take(i - from)) == number,
        decreases chars.len() - i,
    {
        let ch = chars[i];
        let ghost taken = digits.take(i + 1 - from);
        assert(digits[i - from] == ch);
        assert(taken.drop_last() == digits.take(i - from));
        if !('0' <= ch && ch <= '9') {
            return None;
        }
        let digit: u64 = (ch as u32 - 48) as u64;
        assert(taken.last() == ch);
        assert(number_of(taken) == number * 10 + digit);
        let grown = match number.checked_mul(10) {
            Some(tens) => tens.checked_add(digit),
            None => None,
        };
        match grown {
            Some(value) => {
                number = value;
            },
            None => {
                proof {
                    number_grows(digits, i + 1 - from);
                }
                return None;
            },
        }
        assert forall|k: int| 0 <= k < taken.len() implies '0' <= #[trigger] taken[k] <= '9' by {
            if k < i - from {
                assert(taken[k] == digits.take(i - from)[k]);
            }
        }
        i += 1;
    }
    assert(digits.take(i - from) == digits);
    Some(number)
}

proof fn number_grows(digits: Seq<char>, at: int)
    requires
        0 <= at <= digits.len(),
    ensures
        all_digits(digits) ==> number_of(digits.take(at)) <= number_of(digits),
    decreases digits.len() - at,
{
    if at < digits.len() {
        number_grows(digits, at + 1);
        assert(digits.take(at + 1).drop_last() == digits.take(at));
    } else {
        assert(digits.take(at) == digits);
    }
}

impl ElementRef {
    #[verifier::type_invariant]
    spec fn well_formed(self) -> bool {
        self.value > 0
    }

    /// The number of the reference. There is no reference zero.
    pub fn number(self) -> (number: u64)
        ensures
            number == self@,
            number > 0,
    {
        proof {
            use_type_invariant(self);
        }
        self.value
    }

    /// The text of the reference.
    pub fn text(self) -> (text: String)
        ensures
            text@ == reference_text(self),
    {
        let mut text = String::new();
        text.push('e');
        let number = decimal_text(self.value);
        text.append(number.as_str());
        assert(text@ == seq!['e'] + decimal(self.value as nat));
        text
    }

    /// Reads a reference.
    pub fn parse(text: &str) -> (result: Result<ElementRef, InvalidElementRef>)
        ensures
            match result {
                Ok(reference) => reference_of(text@) == Some(reference@),
                Err(error) => reference_of(text@) is None && error.text@ == text@,
            },
    {
        let chars = chars_of(text);
        if chars.len() > 0 && chars[0] == 'e' {
            let from: usize = if chars.len() > 1 && chars[1] == '+' {
                2
            } else {
                1
            };
            proof {
                if chars.len() > 1 {
                    assert(chars@.skip(1).skip(1) == chars@.skip(2));
                    assert(chars@.skip(1)[0] == chars@[1]);
                }
            }
            if let Some(number) = parse_digits(&chars, from) {
                if number != 0 {
                    return Ok(ElementRef { value: number });
                }
            }
        }
        Err(InvalidElementRef { text: text.to_owned() })
    }
}

impl InvalidElementRef {
    /// The text of the error.
    pub fn message(&self) -> (message: String)
        ensures
            message@ == "invalid element reference "@ + quoted(self.text@)
                + "; expected eN where N is positive"@,
    {
        let mut message = "invalid element reference ".to_owned();
        let shown = quote(self.text.as_str());
        message.append(shown.as_str());
        message.append("; expected eN where N is positive");
        message
    }
}

/// The text of a reference reads back as the reference, and as no other.
pub proof fn references_read_back(reference: ElementRef)
    requires
        reference@ > 0,
    ensures
        reference_of(reference_text(reference)) == Some(reference@),
        forall|read: ElementRef|
            reference_of(reference_text(reference)) == Some(#[trigger] read@) ==> read == reference,
{
    let numeral = decimal(reference@ as nat);
    decimal_round_trip(reference@ as nat);
    assert(reference_text(reference).skip(1) == numeral);
    assert('0' <= numeral[0] <= '9');
}

/// What identifies an element from one snapshot to the next.
#[derive(Debug, Clone, PartialEq, Eq)]
pub struct LocatorIdentity {
    pub text: String,
}

impl LocatorIdentity {
    /// A copy.
    pub fn copy(&self) -> (copy: LocatorIdentity)
        ensures
            copy == *self,
    {
        LocatorIdentity { text: self.text.clone() }
    }
}

/// A rectangle of the page.
#[derive(Debug, Clone, Copy, PartialEq, Eq, Structural)]
pub struct Bounds {
    pub x: Real64,
    pub y: Real64,
    pub width: Real64,
    pub height: Real64,
}

/// The size of the page area, in CSS pixels.
#[derive(Debug, Clone, Copy, PartialEq, Eq, Structural)]
pub struct Viewport {
    pub width: u32,
    pub height: u32,
}

/// How far the page is scrolled, and how large it is.
#[derive(Debug, Clone, Copy, PartialEq, Eq, Structural)]
pub struct Scroll {
    pub x: Real64,
    pub y: Real64,
    pub document_width: Real64,
    pub document_height: Real64,
}

/// The states of an element, as far as they are known.
#[derive(Debug, Clone, Copy, PartialEq, Eq, Structural)]
pub struct SemanticState {
    pub enabled: Option<bool>,
    pub editable: Option<bool>,
    pub checked: Option<bool>,
    pub selected: Option<bool>,
    pub focused: Option<bool>,
    pub expanded: Option<bool>,
    pub pressed: Option<bool>,
}

impl SemanticState {
    /// No state is known.
    pub open spec fn none_known(self) -> bool {
        &&& self.enabled is None
        &&& self.editable is None
        &&& self.checked is None
        &&& self.selected is None
        &&& self.focused is None
        &&& self.expanded is None
        &&& self.pressed is None
    }

    /// Whether no state is known.
    pub fn is_empty(&self) -> (empty: bool)
        ensures
            empty == self.none_known(),
    {
        self.enabled.is_none() && self.editable.is_none() && self.checked.is_none()
            && self.selected.is_none() && self.focused.is_none() && self.expanded.is_none()
            && self.pressed.is_none()
    }
}

/// What an element is to a reader of the page.
#[derive(Debug, Clone, PartialEq, Eq)]
pub struct SemanticNode {
    pub role: String,
    pub name: Option<String>,
    pub value: Option<String>,
    pub description: Option<String>,
    pub bounds: Option<Bounds>,
    pub visible: Option<bool>,
    pub state: SemanticState,
}

/// Whether two optional rectangles compare equal.
pub open spec fn same_bounds(left: Option<Bounds>, right: Option<Bounds>) -> bool {
    match (left, right) {
        (Some(left), Some(right)) => {
            &&& same_real(left.x, right.x)
            &&& same_real(left.y, right.y)
            &&& same_real(left.width, right.width)
            &&& same_real(left.height, right.height)
        },
        (None, None) => true,
        _ => false,
    }
}

/// Whether two nodes compare equal.
pub open spec fn same_node(left: SemanticNode, right: SemanticNode) -> bool {
    &&& left.role@ == right.role@
    &&& optional_text(left.name) == optional_text(right.name)
    &&& optional_text(left.value) == optional_text(right.value)
    &&& optional_text(left.description) == optional_text(right.description)
    &&& same_bounds(left.bounds, right.bounds)
    &&& left.visible == right.visible
    &&& left.state == right.state
}

fn same_optional(left: &Option<String>, right: &Option<String>) -> (same: bool)
    ensures
        same == (optional_text(*left) == optional_text(*right)),
{
    match (left, right) {
        (Some(left), Some(right)) => same_text(left.as_str(), right.as_str()),
        (None, None) => true,
        _ => false,
    }
}

fn same_flag(left: Option<bool>, right: Option<bool>) -> (same: bool)
    ensures
        same == (left == right),
{
    match (left, right) {
        (Some(left), Some(right)) => left == right,
        (None, None) => true,
        _ => false,
    }
}

impl SemanticNode {
    /// A copy.
    pub fn copy(&self) -> (copy: SemanticNode)
        ensures
            copy == *self,
    {
        SemanticNode {
            role: self.role.clone(),
            name: copy_optional(&self.name),
            value: copy_optional(&self.value),
            description: copy_optional(&self.description),
            bounds: self.bounds,
            visible: self.visible,
            state: self.state,
        }
    }

    /// Whether the nodes compare equal.
    pub fn same(&self, other: &SemanticNode) -> (same: bool)
        ensures
            same == same_node(*self, *other),
    {
        let bounded = match (self.bounds, other.bounds) {
            (Some(left), Some(right)) => left.x.same(right.x) && left.y.same(right.y)
                && left.width.same(right.width) && left.height.same(right.height),
            (None, None) => true,
            _ => false,
        };
        let left = self.state;
        let right = other.state;
        bounded && same_text(self.role.as_str(), other.role.as_str()) && same_optional(
            &self.name,
            &other.name,
        ) && same_optional(&self.value, &other.value) && same_optional(
            &self.description,
            &other.description,
        ) && same_flag(self.visible, other.visible) && same_flag(left.enabled, right.enabled)
            && same_flag(left.editable, right.editable) && same_flag(left.checked, right.checked)
            && same_flag(left.selected, right.selected) && same_flag(left.focused, right.focused)
            && same_flag(left.expanded, right.expanded) && same_flag(left.pressed, right.pressed)
    }
}

/// An element of a published snapshot.
#[derive(Debug, Clone, PartialEq, Eq)]
pub struct SemanticElement {
    pub element_ref: ElementRef,
    pub identity: LocatorIdentity,
    pub parent: Option<ElementRef>,
    pub node: SemanticNode,
}

/// An element as it was captured.
#[derive(Debug, Clone, PartialEq, Eq)]
pub struct CapturedElement {
    pub identity: LocatorIdentity,
    pub backend_node_id: i64,
    pub parent: Option<LocatorIdentity>,
    pub node: SemanticNode,
}

/// A complete capture of a page.
#[derive(Debug, Clone, PartialEq, Eq)]
pub struct CapturedSnapshot {
    pub viewport: Viewport,
    pub scroll: Scroll,
    pub elements: Vec<CapturedElement>,
    pub truncated: bool,
}

/// A published snapshot.
#[derive(Debug, Clone, PartialEq, Eq)]
pub struct SessionSnapshot {
    pub generation: u64,
    pub viewport: Viewport,
    pub scroll: Scroll,
    pub elements: Vec<SemanticElement>,
    pub truncated: bool,
}

/// An element as differences speak of it.
#[derive(Debug, Clone, PartialEq, Eq)]
pub struct DiffElement {
    pub parent: Option<LocatorIdentity>,
    pub node: SemanticNode,
}

/// An element that is not what it was.
#[derive(Debug, Clone, PartialEq, Eq)]
pub struct ChangedElement {
    pub before_parent: Option<LocatorIdentity>,
    pub after_parent: Option<LocatorIdentity>,
    pub before: SemanticNode,
    pub after: SemanticNode,
}

/// The difference between two snapshots, by the identities of their elements.
#[derive(Debug)]
pub struct SnapshotDiff {
    pub from_generation: u64,
    pub to_generation: u64,
    pub added: TextMap<DiffElement>,
    pub changed: TextMap<ChangedElement>,
    pub removed: TextMap<DiffElement>,
}

/// Why a reference does not resolve.
#[derive(Debug, Clone, Copy, PartialEq, Eq, Structural)]
pub enum ReferenceError {
    Unknown { reference: ElementRef },
    Stale { reference: ElementRef },
}

/// Why a capture cannot be published.
#[derive(Debug, Clone, PartialEq, Eq)]
pub enum SnapshotError {
    GenerationExhausted,
    ReferenceExhausted,
    DuplicateIdentity(LocatorIdentity),
    MissingParent { identity: LocatorIdentity, parent: LocatorIdentity },
}

/// Why there is no difference to tell.
#[derive(Debug, Clone, Copy, PartialEq, Eq, Structural)]
pub enum DiffError {
    NotRetained(u64),
    NotAdjacent { from: u64, to: u64 },
}

/// The text of a reference error.
pub open spec fn reference_error_text(error: ReferenceError) -> Seq<char> {
    match error {
        ReferenceError::Unknown { reference } => "unknown element reference "@ + reference_text(
            reference,
        ),
        ReferenceError::Stale { reference } => "stale element reference "@ + reference_text(
            reference,
        ),
    }
}

impl ReferenceError {
    /// The text of the error.
    pub fn message(self) -> (message: String)
        ensures
            message@ == reference_error_text(self),
    {
        let (mut message, reference) = match self {
            ReferenceError::Unknown { reference } => (
                "unknown element reference ".to_owned(),
                reference.text(),
            ),
            ReferenceError::Stale { reference } => (
                "stale element reference ".to_owned(),
                reference.text(),
            ),
        };
        message.append(reference.as_str());
        message
    }
}

/// The text of a difference error.
pub open spec fn diff_error_text(error: DiffError) -> Seq<char> {
    match error {
        DiffError::NotRetained(generation) => "snapshot generation "@ + decimal(generation as nat)
            + " is not retained"@,
        DiffError::NotAdjacent { from, to } => "snapshots "@ + decimal(from as nat) + " and "@
            + decimal(to as nat) + " are not adjacent retained snapshots"@,
    }
}

impl DiffError {
    /// The text of the error.
    pub fn message(self) -> (message: String)
        ensures
            message@ == diff_error_text(self),
    {
        match self {
            DiffError::NotRetained(generation) => {
                let mut message = "snapshot generation ".to_owned();
                let number = decimal_text(generation);
                message.append(number.as_str());
                message.append(" is not retained");
                message
            },
            DiffError::NotAdjacent { from, to } => {
                let mut message = "snapshots ".to_owned();
                let first = decimal_text(from);
                message.append(first.as_str());
                message.append(" and ");
                let second = decimal_text(to);
                message.append(second.as_str());
                message.append(" are not adjacent retained snapshots");
                message
            },
        }
    }
}

/// The text of a publishing error.
pub open spec fn snapshot_error_text(error: SnapshotError) -> Seq<char> {
    match error {
        SnapshotError::GenerationExhausted => "snapshot generation space exhausted"@,
        SnapshotError::ReferenceExhausted => "element reference space exhausted"@,
        SnapshotError::DuplicateIdentity(identity) => "duplicate durable locator identity "@
            + identity_text(identity),
        SnapshotError::MissingParent { identity, parent } => "element "@ + identity_text(identity)
            + " has missing parent "@ + identity_text(parent),
    }
}

/// How errors show an identity.
pub open spec fn identity_text(identity: LocatorIdentity) -> Seq<char> {
    "LocatorIdentity("@ + quoted(identity.text@) + ")"@
}

fn show_identity(identity: &LocatorIdentity) -> (text: String)
    ensures
        text@ == identity_text(*identity),
{
    let mut text = "LocatorIdentity(".to_owned();
    let shown = quote(identity.text.as_str());
    text.append(shown.as_str());
    text.append(")");
    text
}

impl SnapshotError {
    /// The text of the error.
    pub fn message(&self) -> (message: String)
        ensures
            message@ == snapshot_error_text(*self),
    {
        match self {
            SnapshotError::GenerationExhausted => "snapshot generation space exhausted".to_owned(),
            SnapshotError::ReferenceExhausted => "element reference space exhausted".to_owned(),
            SnapshotError::DuplicateIdentity(identity) => {
                let mut message = "duplicate durable locator identity ".to_owned();
                let shown = show_identity(identity);
                message.append(shown.as_str());
                message
            },
            SnapshotError::MissingParent { identity, parent } => {
                let mut message = "element ".to_owned();
                let shown = show_identity(identity);
                message.append(shown.as_str());
                message.append(" has missing parent ");
                let above = show_identity(parent);
                message.append(above.as_str());
                message
            },
        }
    }
}

/// What a published snapshot says.
pub ghost struct SnapshotModel {
    pub generation: u64,
    pub viewport: Viewport,
    pub scroll: Scroll,
    pub elements: Seq<SemanticElement>,
    pub truncated: bool,
}

impl View for SessionSnapshot {
    type V = SnapshotModel;

    open spec fn view(&self) -> SnapshotModel {
        SnapshotModel {
            generation: self.generation,
            viewport: self.viewport,
            scroll: self.scroll,
            elements: self.elements@,
            truncated: self.truncated,
        }
    }
}

/// A snapshot that is kept, with its elements by identity.
pub ghost struct KeptModel {
    pub snapshot: SnapshotModel,
    pub elements: Map<Seq<char>, DiffElement>,
}

/// What a store holds: how many snapshots it keeps, the number of snapshots published, the number
/// of references issued, the references that resolve, and the snapshots kept, oldest first.
pub ghost struct StoreModel {
    pub retention: nat,
    pub generation: u64,
    pub last_ref: u64,
    pub latest: Map<u64, (LocatorIdentity, i64)>,
    pub kept: Seq<KeptModel>,
}

impl StoreModel {
    /// The newest snapshots are kept, as many as there are or as may be, under consecutive
    /// generations, and every reference that resolves has been issued by the newest one.
    pub open spec fn valid(self) -> bool {
        &&& self.retention > 0
        &&& self.kept.len() == if self.generation < self.retention {
            self.generation as nat
        } else {
            self.retention
        }
        &&& forall|i: int|
            0 <= i < self.kept.len() ==> (#[trigger] self.kept[i]).snapshot.generation
                == self.generation - self.kept.len() + 1 + i
        &&& forall|number: u64| #[trigger]
            self.latest.contains_key(number) ==> 0 < number <= self.last_ref && self.kept.len() > 0
                && exists|i: int|
                0 <= i < self.kept.last().snapshot.elements.len() && (
                #[trigger] self.kept.last().snapshot.elements[i]).element_ref@ == number
    }
}

/// The elements' identities.
pub open spec fn identities(elements: Seq<CapturedElement>) -> Seq<Seq<char>> {
    elements.map_values(|element: CapturedElement| element.identity.text@)
}

/// Whether an identity occurs before a place.
pub open spec fn repeats(elements: Seq<CapturedElement>, i: int) -> bool {
    identities(elements).take(i).contains(elements[i].identity.text@)
}

/// Whether the parent of an element is none of the elements.
pub open spec fn orphan(elements: Seq<CapturedElement>, i: int) -> bool {
    match elements[i].parent {
        Some(parent) => !identities(elements).contains(parent.text@),
        None => false,
    }
}

/// Whether no element repeats an identity, up to a place.
pub open spec fn distinct_until(elements: Seq<CapturedElement>, end: int) -> bool {
    forall|i: int| 0 <= i < end ==> !#[trigger] repeats(elements, i)
}

/// Whether every parent is among the elements, up to a place.
pub open spec fn rooted_until(elements: Seq<CapturedElement>, end: int) -> bool {
    forall|i: int| 0 <= i < end ==> !#[trigger] orphan(elements, i)
}

/// Whether a store has room for one more snapshot, of so many elements.
pub open spec fn has_numbers(store: StoreModel, count: nat) -> bool {
    store.generation < u64::MAX && store.last_ref + count <= u64::MAX
}

/// Whether a store refuses elements with an error: it has run out of generations, or out of
/// references, or the error tells of the first repeated identity, or of the first missing parent.
pub open spec fn refuses(
    store: StoreModel,
    elements: Seq<CapturedElement>,
    error: SnapshotError,
) -> bool {
    match error {
        SnapshotError::GenerationExhausted => store.generation == u64::MAX,
        SnapshotError::ReferenceExhausted => store.generation < u64::MAX && store.last_ref
            + elements.len() > u64::MAX,
        SnapshotError::DuplicateIdentity(identity) => {
            &&& has_numbers(store, elements.len())
            &&& exists|i: int|
                {
                    &&& 0 <= i < elements.len()
                    &&& distinct_until(elements, i)
                    &&& #[trigger] repeats(elements, i)
                    &&& identity == elements[i].identity
                }
        },
        SnapshotError::MissingParent { identity, parent } => {
            &&& has_numbers(store, elements.len())
            &&& distinct_until(elements, elements.len() as int)
            &&& exists|i: int|
                {
                    &&& 0 <= i < elements.len()
                    &&& rooted_until(elements, i)
                    &&& #[trigger] orphan(elements, i)
                    &&& identity == elements[i].identity
                    &&& elements[i].parent == Some(parent)
                }
        },
    }
}

/// Whether a store takes elements.
pub open spec fn accepts(store: StoreModel, elements: Seq<CapturedElement>) -> bool {
    &&& has_numbers(store, elements.len())
    &&& distinct_until(elements, elements.len() as int)
    &&& rooted_until(elements, elements.len() as int)
}

/// The reference of the element at a place.
pub open spec fn issued(last_ref: u64, i: int) -> ElementRef {
    reference_to((last_ref + 1 + i) as u64)
}

/// An element as it is published.
pub open spec fn published_element(
    last_ref: u64,
    elements: Seq<CapturedElement>,
    i: int,
) -> SemanticElement {
    SemanticElement {
        element_ref: issued(last_ref, i),
        identity: elements[i].identity,
        parent: match elements[i].parent {
            Some(parent) => Some(issued(last_ref, identities(elements).index_of(parent.text@))),
            None => None,
        },
        node: elements[i].node,
    }
}

/// The elements by identity.
pub open spec fn by_identity(elements: Seq<CapturedElement>) -> Map<Seq<char>, DiffElement>
    decreases elements.len(),
{
    if elements.len() == 0 {
        Map::empty()
    } else {
        by_identity(elements.drop_last()).insert(
            elements.last().identity.text@,
            DiffElement { parent: elements.last().parent, node: elements.last().node },
        )
    }
}

/// What new references stand for.
pub open spec fn references_of(last_ref: u64, elements: Seq<CapturedElement>) -> Map<
    u64,
    (LocatorIdentity, i64),
>
    decreases elements.len(),
{
    if elements.len() == 0 {
        Map::empty()
    } else {
        references_of(last_ref, elements.drop_last()).insert(
            issued(last_ref, elements.len() - 1)@,
            (elements.last().identity, elements.last().backend_node_id),
        )
    }
}

/// The snapshot that is published for a capture.
pub open spec fn snapshot_of(store: StoreModel, capture: CapturedSnapshot) -> SnapshotModel {
    SnapshotModel {
        generation: (store.generation + 1) as u64,
        viewport: capture.viewport,
        scroll: capture.scroll,
        elements: Seq::new(
            capture.elements@.len(),
            |i: int| published_element(store.last_ref, capture.elements@, i),
        ),
        truncated: capture.truncated,
    }
}

/// The last values of a sequence, at most so many.
pub open spec fn newest<T>(values: Seq<T>, count: nat) -> Seq<T> {
    if values.len() > count {
        values.skip(values.len() - count)
    } else {
        values
    }
}

/// The store after a capture was published.
pub open spec fn published(store: StoreModel, capture: CapturedSnapshot) -> StoreModel {
    StoreModel {
        retention: store.retention,
        generation: (store.generation + 1) as u64,
        last_ref: (store.last_ref + capture.elements@.len()) as u64,
        latest: references_of(store.last_ref, capture.elements@),
        kept: newest(
            store.kept.push(
                KeptModel {
                    snapshot: snapshot_of(store, capture),
                    elements: by_identity(capture.elements@),
                },
            ),
            store.retention,
        ),
    }
}

/// Whether a snapshot of a generation is kept.
pub open spec fn keeps(store: StoreModel, generation: u64) -> bool {
    exists|i: int|
        0 <= i < store.kept.len() && (#[trigger] store.kept[i]).snapshot.generation == generation
}

/// The elements, by identity, of the kept snapshot of a generation.
pub open spec fn elements_at(store: StoreModel, generation: u64) -> Map<Seq<char>, DiffElement> {
    store.kept[generation - store.generation + store.kept.len() - 1].elements
}

/// Whether two elements compare equal.
pub open spec fn same_element(left: DiffElement, right: DiffElement) -> bool {
    &&& match (left.parent, right.parent) {
        (Some(left), Some(right)) => left.text@ == right.text@,
        (None, None) => true,
        _ => false,
    }
    &&& same_node(left.node, right.node)
}

/// The elements of the second map alone.
pub open spec fn only_in(
    before: Map<Seq<char>, DiffElement>,
    after: Map<Seq<char>, DiffElement>,
) -> Map<Seq<char>, DiffElement> {
    after.remove_keys(before.dom())
}

/// What changed from one map to the next.
pub open spec fn changed_between(
    before: Map<Seq<char>, DiffElement>,
    after: Map<Seq<char>, DiffElement>,
) -> Map<Seq<char>, ChangedElement> {
    Map::new(
        |key: Seq<char>|
            {
                &&& before.contains_key(key)
                &&& after.contains_key(key)
                &&& !same_element(before[key], after[key])
            },
        |key: Seq<char>|
            ChangedElement {
                before_parent: before[key].parent,
                after_parent: after[key].parent,
                before: before[key].node,
                after: after[key].node,
            },
    )
}

/// What [`SnapshotStore::diff`] answers for two generations.
pub open spec fn difference(
    store: StoreModel,
    from: u64,
    to: u64,
    result: Result<SnapshotDiff, DiffError>,
) -> bool {
    match result {
        Err(DiffError::NotRetained(generation)) => {
            ||| !keeps(store, from) && generation == from
            ||| keeps(store, from) && !keeps(store, to) && generation == to
        },
        Err(DiffError::NotAdjacent { from: first, to: second }) => {
            &&& keeps(store, from)
            &&& keeps(store, to)
            &&& to != from + 1
            &&& first == from
            &&& second == to
        },
        Ok(diff) => {
            let before = elements_at(store, from);
            let after = elements_at(store, to);
            &&& keeps(store, from)
            &&& keeps(store, to)
            &&& to == from + 1
            &&& diff.from_generation == from
            &&& diff.to_generation == to
            &&& diff.added@ == only_in(before, after)
            &&& diff.changed@ == changed_between(before, after)
            &&& diff.removed@ == only_in(after, before)
        },
    }
}

fn copy_identity(identity: &Option<LocatorIdentity>) -> (copy: Option<LocatorIdentity>)
    ensures
        copy == *identity,
{
    match identity {
        Some(identity) => Some(identity.copy()),
        None => None,
    }
}

impl DiffElement {
    /// A copy.
    pub fn copy(&self) -> (copy: DiffElement)
        ensures
            copy == *self,
    {
        DiffElement { parent: copy_identity(&self.parent), node: self.node.copy() }
    }

    /// Whether the elements compare equal.
    pub fn same(&self, other: &DiffElement) -> (same: bool)
        ensures
            same == same_element(*self, *other),
    {
        let parents = match (&self.parent, &other.parent) {
            (Some(left), Some(right)) => same_text(left.text.as_str(), right.text.as_str()),
            (None, None) => true,
            _ => false,
        };
        parents && self.node.same(&other.node)
    }
}

impl SemanticElement {
    /// A copy.
    pub fn copy(&self) -> (copy: SemanticElement)
        ensures
            copy == *self,
    {
        SemanticElement {
            element_ref: self.element_ref,
            identity: self.identity.copy(),
            parent: self.parent,
            node: self.node.copy(),
        }
    }
}

impl SessionSnapshot {
    /// A copy.
    pub fn copy(&self) -> (copy: SessionSnapshot)
        ensures
            copy@ == self@,
    {
        let mut elements: Vec<SemanticElement> = Vec::new();
        for element in it: &self.elements
            invariant
                elements@ == self.elements@.take(it.index() as int),
                it.seq().len() == self.elements@.len(),
                forall|k: int| 0 <= k < it.seq().len() ==> *(#[trigger] it.seq()[k]) == self.elements@[k],
        {
            let copy = element.copy();
            proof {
                assert(self.elements@.take(it.index() + 1) == self.elements@.take(
                    it.index() as int,
                ).push(self.elements@[it.index() as int]));
            }
            elements.push(copy);
        }
        assert(self.elements@.take(self.elements@.len() as int) == self.elements@);
        SessionSnapshot {
            generation: self.generation,
            viewport: self.viewport,
            scroll: self.scroll,
            elements,
            truncated: self.truncated,
        }
    }
}

#[derive(Debug)]
struct StoredSnapshot {
    response: SessionSnapshot,
    elements: TextMap<DiffElement>,
}

impl View for StoredSnapshot {
    type V = KeptModel;

    closed spec fn view(&self) -> KeptModel {
        KeptModel { snapshot: self.response@, elements: self.elements@ }
    }
}

/// The snapshots of a session and the references that they issued.
#[derive(Debug)]
pub struct SnapshotStore {
    retention: usize,
    generation: u64,
    last_ref: u64,
    latest: BTreeMap<u64, (LocatorIdentity, i64)>,
    snapshots: VecDeque<StoredSnapshot>,
}

impl View for SnapshotStore {
    type V = StoreModel;

    closed spec fn view(&self) -> StoreModel {
        StoreModel {
            retention: self.retention as nat,
            generation: self.generation,
            last_ref: self.last_ref,
            latest: self.latest@,
            kept: self.snapshots@.map_values(|stored: StoredSnapshot| stored@),
        }
    }
}

/// The place at which each identity first occurs, among the elements before one.
spec fn places_until(
    places: Map<Seq<char>, usize>,
    elements: Seq<CapturedElement>,
    end: int,
) -> bool {
    &&& forall|text: Seq<char>| #[trigger]
        places.contains_key(text) <==> identities(elements).take(end).contains(text)
    &&& forall|text: Seq<char>| #[trigger]
        places.contains_key(text) ==> places[text] < end && elements[places[text] as int].identity.text@
            == text
}

proof fn place_is_index(elements: Seq<CapturedElement>, place: int)
    requires
        distinct_until(elements, elements.len() as int),
        0 <= place < elements.len(),
    ensures
        identities(elements).index_of(elements[place].identity.text@) == place,
{
    let names = identities(elements);
    let text = elements[place].identity.text@;
    assert(names[place] == text);
    assert(names.contains(text));
    let found = names.index_of(text);
    if found < place {
        assert(names.take(place)[found] == text);
        assert(repeats(elements, place));
    } else if place < found {
        assert(names.take(found)[place] == text);
        assert(repeats(elements, found));
    }
}

/// Finds the place of each element, or the first identity that repeats.
fn find_places(elements: &Vec<CapturedElement>) -> (result: Result<TextMap<usize>, usize>)
    ensures
        match result {
            Ok(places) => {
                &&& distinct_until(elements@, elements@.len() as int)
                &&& places_until(places@, elements@, elements@.len() as int)
            },
            Err(at) => {
                &&& at < elements@.len()
                &&& distinct_until(elements@, at as int)
                &&& repeats(elements@, at as int)
            },
        },
{
    let ghost names = identities(elements@);
    let mut places: TextMap<usize> = TextMap::new();
    let mut i: usize = 0;
    while i < elements.len()
        invariant
            i <= elements.len(),
            names == identities(elements@),
            distinct_until(elements@, i as int),
            places_until(places@, elements@, i as int),
        decreases elements.len() - i,
    {
        if places.contains_key(elements[i].identity.text.as_str()) {
            return Err(i);
        }
        let ghost before = places@;
        places.insert(elements[i].identity.text.clone(), i);
        proof {
            let text = elements@[i as int].identity.text@;
            let more = names.take(i + 1);
            assert(more == names.take(i as int).push(text));
            assert forall|other: Seq<char>| #[trigger]
                places@.contains_key(other) <==> more.contains(other) by {
                if more.contains(other) && other != text {
                    let at = more.index_of(other);
                    assert(names.take(i as int)[at] == other);
                }
                if before.contains_key(other) {
                    let at = names.take(i as int).index_of(other);
                    assert(more[at] == other);
                }
                if other == text {
                    assert(more[i as int] == text);
                }
            }
        }
        i += 1;
    }
    Ok(places)
}

/// Finds the first element whose parent is missing.
fn find_orphan(elements: &Vec<CapturedElement>, places: &TextMap<usize>) -> (found: Option<usize>)
    requires
        places_until(places@, elements@, elements@.len() as int),
    ensures
        match found {
            Some(at) => at < elements@.len() && rooted_until(elements@, at as int) && orphan(
                elements@,
                at as int,
            ),
            None => rooted_until(elements@, elements@.len() as int),
        },
{
    let mut i: usize = 0;
    assert(identities(elements@).take(elements@.len() as int) == identities(elements@));
    while i < elements.len()
        invariant
            i <= elements.len(),
            places_until(places@, elements@, elements@.len() as int),
            identities(elements@).take(elements@.len() as int) == identities(elements@),
            rooted_until(elements@, i as int),
        decreases elements.len() - i,
    {
        if let Some(parent) = &elements[i].parent {
            if !places.contains_key(parent.text.as_str()) {
                return Some(i);
            }
        }
        i += 1;
    }
    None
}

fn put_reference(
    latest: &mut BTreeMap<u64, (LocatorIdentity, i64)>,
    number: u64,
    target: (LocatorIdentity, i64),
)
    ensures
        final(latest)@ == old(latest)@.insert(number, target),
{
    broadcast use {
        vstd::std_specs::btree::group_btree_axioms,
        vstd::laws_cmp::group_laws_cmp,
    };

    latest.insert(number, target);
}

fn find_reference(latest: &BTreeMap<u64, (LocatorIdentity, i64)>, number: u64) -> (found: Option<
    &(LocatorIdentity, i64),
>)
    ensures
        match found {
            Some(target) => latest@.contains_key(number) && *target == latest@[number],
            None => !latest@.contains_key(number),
        },
{
    broadcast use {
        vstd::std_specs::btree::group_btree_axioms,
        vstd::laws_cmp::group_laws_cmp,
    };

    latest.get(&number)
}

/// What is made of the elements of a capture.
struct Published {
    elements: Vec<SemanticElement>,
    latest: BTreeMap<u64, (LocatorIdentity, i64)>,
    stored: TextMap<DiffElement>,
}

fn publish_elements(
    last_ref: u64,
    elements: Vec<CapturedElement>,
    places: &TextMap<usize>,
) -> (made: Published)
    requires
        last_ref + elements@.len() <= u64::MAX,
        places_until(places@, elements@, elements@.len() as int),
        distinct_until(elements@, elements@.len() as int),
        rooted_until(elements@, elements@.len() as int),
    ensures
        made.elements@ == Seq::new(
            elements@.len(),
            |i: int| published_element(last_ref, elements@, i),
        ),
        made.latest@ == references_of(last_ref, elements@),
        made.stored@ == by_identity(elements@),
{
    let ghost all = elements@;
    assert(identities(all).take(all.len() as int) == identities(all));
    let mut published: Vec<SemanticElement> = Vec::new();
    let mut latest: BTreeMap<u64, (LocatorIdentity, i64)> = BTreeMap::new();
    let mut stored: TextMap<DiffElement> = TextMap::new();
    let mut last: u64 = last_ref;
    for element in it: elements
        invariant
            it.seq() == all,
            last == last_ref + it.index(),
            last_ref + all.len() <= u64::MAX,
            places_until(places@, all, all.len() as int),
            identities(all).take(all.len() as int) == identities(all),
            distinct_until(all, all.len() as int),
            rooted_until(all, all.len() as int),
            published@.len() == it.index(),
            forall|i: int|
                0 <= i < it.index() ==> #[trigger] published@[i] == published_element(
                    last_ref,
                    all,
                    i,
                ),
            latest@ == references_of(last_ref, all.take(it.index() as int)),
            stored@ == by_identity(all.take(it.index() as int)),
    {
        let ghost i = it.index() as int;
        proof {
            assert(all.take(i + 1).drop_last() == all.take(i));
            assert(all.take(i + 1).last() == all[i]);
            assert(!orphan(all, i));
        }
        last += 1;
        let element_ref = ElementRef { value: last };
        let parent = match &element.parent {
            Some(parent) => {
                proof {
                    assert(places@.contains_key(parent.text@));
                    place_is_index(all, places@[parent.text@] as int);
                }
                match places.get(parent.text.as_str()) {
                    Some(place) => Some(parent_reference(last_ref, *place)),
                    None => None,
                }
            },
            None => None,
        };
        put_reference(&mut latest, last, (element.identity.copy(), element.backend_node_id));
        stored.insert(
            element.identity.text.clone(),
            DiffElement { parent: copy_identity(&element.parent), node: element.node.copy() },
        );
        published.push(
            SemanticElement { element_ref, identity: element.identity, parent, node: element.node },
        );
    }
    proof {
        assert(all.take(all.len() as int) == all);
        assert(published@ =~= Seq::new(
            all.len(),
            |i: int| published_element(last_ref, all, i),
        ));
    }
    Published { elements: published, latest, stored }
}

fn parent_reference(last_ref: u64, place: usize) -> (reference: ElementRef)
    requires
        last_ref + place + 1 <= u64::MAX,
    ensures
        reference == issued(last_ref, place as int),
{
    ElementRef { value: last_ref + 1 + place as u64 }
}

proof fn references_are_issued(last_ref: u64, elements: Seq<CapturedElement>)
    requires
        last_ref + elements.len() <= u64::MAX,
    ensures
        forall|number: u64| #[trigger]
            references_of(last_ref, elements).contains_key(number) <==> (last_ref < number
                <= last_ref + elements.len()),
        forall|i: int|
            0 <= i < elements.len() ==> references_of(last_ref, elements)[(#[trigger] issued(
                last_ref,
                i,
            ))@] == (elements[i].identity, elements[i].backend_node_id),
    decreases elements.len(),
{
    if elements.len() > 0 {
        let fewer = references_of(last_ref, elements.drop_last());
        references_are_issued(last_ref, elements.drop_last());
        assert forall|number: u64| #[trigger]
            references_of(last_ref, elements).contains_key(number) <==> (last_ref < number
                <= last_ref + elements.len()) by {
            assert(fewer.contains_key(number) <==> (last_ref < number <= last_ref + elements.len()
                - 1));
        }
    }
}

/// Publishing a capture that is accepted keeps a store valid.
pub proof fn published_is_valid(store: StoreModel, capture: CapturedSnapshot)
    requires
        store.valid(),
        accepts(store, capture.elements@),
    ensures
        published(store, capture).valid(),
{
    references_are_issued(store.last_ref, capture.elements@);
    let kept = store.kept.push(
        KeptModel {
            snapshot: snapshot_of(store, capture),
            elements: by_identity(capture.elements@),
        },
    );
    let next = published(store, capture);
    let skipped = kept.len() - next.kept.len();
    assert forall|i: int| 0 <= i < next.kept.len() implies (#[trigger] next.kept[i]).snapshot.generation
        == next.generation - next.kept.len() + 1 + i by {
        assert(next.kept[i] == kept[i + skipped]);
        if i + skipped < store.kept.len() {
            assert(kept[i + skipped] == store.kept[i + skipped]);
        }
    }
    assert(next.kept.last() == kept.last());
    assert forall|number: u64| #[trigger] next.latest.contains_key(number) implies exists|i: int|
        0 <= i < next.kept.last().snapshot.elements.len() && (
        #[trigger] next.kept.last().snapshot.elements[i]).element_ref@ == number by {
        let i = number - store.last_ref - 1;
        assert(next.kept.last().snapshot.elements[i] == published_element(
            store.last_ref,
            capture.elements@,
            i,
        ));
    }
}

fn elements_only_in(before: &TextMap<DiffElement>, after: &TextMap<DiffElement>) -> (only: TextMap<
    DiffElement,
>)
    ensures
        only@ == only_in(before@, after@),
{
    let mut only: TextMap<DiffElement> = TextMap::new();
    let len = after.len();
    let ghost keys = after.keys();
    let mut i: usize = 0;
    while i < len
        invariant
            i <= len,
            keys == after.keys(),
            len == keys.len(),
            forall|key: Seq<char>| #[trigger]
                only@.contains_key(key) <==> (keys.take(i as int).contains(key)
                    && !before@.contains_key(key)),
            forall|key: Seq<char>| #[trigger]
                only@.contains_key(key) ==> after@.contains_key(key) && only@[key] == after@[key],
        decreases len - i,
    {
        let key = after.key_at(i);
        let value = after.value_at(i);
        proof {
            let more = keys.take(i + 1);
            assert(more == keys.take(i as int).push(key@));
            assert forall|other: Seq<char>| #[trigger]
                more.contains(other) <==> keys.take(i as int).contains(other) || other == key@ by {
                if more.contains(other) {
                    let at = more.index_of(other);
                    if at < i {
                        assert(keys.take(i as int)[at] == other);
                    }
                }
                if keys.take(i as int).contains(other) {
                    let at = keys.take(i as int).index_of(other);
                    assert(more[at] == other);
                }
                assert(more[i as int] == key@);
            }
        }
        if !before.contains_key(key.as_str()) {
            only.insert(key.clone(), value.copy());
        }
        i += 1;
    }
    proof {
        assert(keys.take(len as int) == keys);
        let expected = only_in(before@, after@);
        assert forall|key: Seq<char>| #[trigger] only@.contains_key(key) <==> expected.contains_key(
            key,
        ) by {
            assert(after@.contains_key(key) <==> keys.contains(key));
        }
        assert(only@ =~= expected);
    }
    only
}

fn elements_changed(before: &TextMap<DiffElement>, after: &TextMap<DiffElement>) -> (changed:
    TextMap<ChangedElement>)
    ensures
        changed@ == changed_between(before@, after@),
{
    let mut changed: TextMap<ChangedElement> = TextMap::new();
    let len = after.len();
    let ghost keys = after.keys();
    let ghost expected = changed_between(before@, after@);
    let mut i: usize = 0;
    while i < len
        invariant
            i <= len,
            keys == after.keys(),
            len == keys.len(),
            expected == changed_between(before@, after@),
            forall|key: Seq<char>| #[trigger]
                changed@.contains_key(key) <==> (keys.take(i as int).contains(key)
                    && expected.contains_key(key)),
            forall|key: Seq<char>| #[trigger]
                changed@.contains_key(key) ==> changed@[key] == expected[key],
        decreases len - i,
    {
        let key = after.key_at(i);
        let current = after.value_at(i);
        proof {
            let more = keys.take(i + 1);
            assert(more == keys.take(i as int).push(key@));
            assert forall|other: Seq<char>| #[trigger]
                more.contains(other) <==> keys.take(i as int).contains(other) || other == key@ by {
                if more.contains(other) {
                    let at = more.index_of(other);
                    if at < i {
                        assert(keys.take(i as int)[at] == other);
                    }
                }
                if keys.take(i as int).contains(other) {
                    let at = keys.take(i as int).index_of(other);
                    assert(more[at] == other);
                }
                assert(more[i as int] == key@);
            }
        }
        if let Some(earlier) = before.get(key.as_str()) {
            if !earlier.same(current) {
                changed.insert(
                    key.clone(),
                    ChangedElement {
                        before_parent: copy_identity(&earlier.parent),
                        after_parent: copy_identity(&current.parent),
                        before: earlier.node.copy(),
                        after: current.node.copy(),
                    },
                );
            }
        }
        i += 1;
    }
    proof {
        assert(keys.take(len as int) == keys);
        assert forall|key: Seq<char>| #[trigger]
            changed@.contains_key(key) <==> expected.contains_key(key) by {
            assert(after@.contains_key(key) <==> keys.contains(key));
        }
        assert(changed@ =~= expected);
    }
    changed
}

impl SnapshotStore {
    /// The store is in order.
    pub open spec fn wf(&self) -> bool {
        self@.valid()
    }

    /// An empty store that keeps so many snapshots.
    pub fn new(retention: usize) -> (store: SnapshotStore)
        requires
            retention > 0,
        ensures
            store.wf(),
            store@.retention == retention,
            store@.generation == 0,
            store@.last_ref == 0,
            store@.latest == Map::<u64, (LocatorIdentity, i64)>::empty(),
            store@.kept == Seq::<KeptModel>::empty(),
    {
        let store = SnapshotStore {
            retention,
            generation: 0,
            last_ref: 0,
            latest: BTreeMap::new(),
            snapshots: VecDeque::new(),
        };
        assert(store@.kept == Seq::<KeptModel>::empty());
        store
    }

    /// The number of snapshots published.
    pub fn generation(&self) -> (generation: u64)
        ensures
            generation == self@.generation,
    {
        self.generation
    }

    /// The number of references issued.
    pub fn last_reference(&self) -> (last_ref: u64)
        ensures
            last_ref == self@.last_ref,
    {
        self.last_ref
    }

    /// The newest snapshot.
    pub fn latest_snapshot(&self) -> (latest: Option<&SessionSnapshot>)
        ensures
            match latest {
                Some(snapshot) => self@.kept.len() > 0 && snapshot@ == self@.kept.last().snapshot,
                None => self@.kept.len() == 0,
            },
    {
        let len = self.snapshots.len();
        if len > 0 {
            assert(self@.kept.last() == self.snapshots@[len - 1]@);
            Some(&self.snapshots[len - 1].response)
        } else {
            None
        }
    }

    /// Makes every reference stale, before something changes the page.
    pub fn invalidate_for_mutation(&mut self)
        requires
            old(self).wf(),
        ensures
            final(self).wf(),
            final(self)@ == (StoreModel {
                latest: Map::<u64, (LocatorIdentity, i64)>::empty(),
                ..old(self)@
            }),
    {
        self.latest.clear();
    }

    /// The element that a reference stands for.
    pub fn resolve(&self, reference: ElementRef) -> (result: Result<
        (&LocatorIdentity, i64),
        ReferenceError,
    >)
        ensures
            match result {
                Ok((identity, backend_node_id)) => {
                    &&& self@.latest.contains_key(reference@)
                    &&& self@.latest[reference@] == (*identity, backend_node_id)
                },
                Err(ReferenceError::Stale { reference: stale }) => {
                    &&& !self@.latest.contains_key(reference@)
                    &&& reference@ <= self@.last_ref
                    &&& stale == reference
                },
                Err(ReferenceError::Unknown { reference: unknown }) => {
                    &&& !self@.latest.contains_key(reference@)
                    &&& reference@ > self@.last_ref
                    &&& unknown == reference
                },
            },
    {
        if let Some(target) = find_reference(&self.latest, reference.value) {
            return Ok((&target.0, target.1));
        }
        if reference.value <= self.last_ref {
            Err(ReferenceError::Stale { reference })
        } else {
            Err(ReferenceError::Unknown { reference })
        }
    }

    fn position(&self, generation: u64) -> (found: Option<usize>)
        requires
            self.wf(),
        ensures
            match found {
                Some(at) => {
                    &&& at < self.snapshots@.len()
                    &&& self@.kept[at as int].snapshot.generation == generation
                    &&& keeps(self@, generation)
                    &&& at == generation - self@.generation + self@.kept.len() - 1
                },
                None => !keeps(self@, generation),
            },
    {
        let mut i: usize = 0;
        while i < self.snapshots.len()
            invariant
                self.wf(),
                i <= self.snapshots@.len(),
                forall|k: int|
                    0 <= k < i ==> (#[trigger] self@.kept[k]).snapshot.generation != generation,
            decreases self.snapshots@.len() - i,
        {
            assert(self@.kept[i as int] == self.snapshots@[i as int]@);
            if self.snapshots[i].response.generation == generation {
                return Some(i);
            }
            i += 1;
        }
        None
    }

    /// Whether the next snapshot can be compared with that of a generation.
    pub fn validate_diff_from(&self, from: u64) -> (result: Result<(), DiffError>)
        requires
            self.wf(),
        ensures
            match result {
                Ok(_) => keeps(self@, from) && from == self@.generation,
                Err(DiffError::NotRetained(generation)) => !keeps(self@, from) && generation == from,
                Err(DiffError::NotAdjacent { from: first, to }) => {
                    &&& keeps(self@, from)
                    &&& from != self@.generation
                    &&& first == from
                    &&& to == if self@.generation < u64::MAX {
                        self@.generation + 1
                    } else {
                        u64::MAX as int
                    }
                },
            },
    {
        if self.position(from).is_none() {
            return Err(DiffError::NotRetained(from));
        }
        if from != self.generation {
            return Err(
                DiffError::NotAdjacent { from, to: self.generation.saturating_add(1) },
            );
        }
        Ok(())
    }

    /// Publishes a capture: issues a fresh reference for each element, and makes all others stale.
    /// A capture that is refused changes nothing.
    pub fn publish(&mut self, capture: CapturedSnapshot) -> (result: Result<
        SessionSnapshot,
        SnapshotError,
    >)
        requires
            old(self).wf(),
        ensures
            final(self).wf(),
            match result {
                Ok(snapshot) => {
                    &&& accepts(old(self)@, capture.elements@)
                    &&& snapshot@ == snapshot_of(old(self)@, capture)
                    &&& forall|i: int|
                        0 <= i < snapshot.elements@.len() ==> (
                        #[trigger] snapshot.elements@[i]).element_ref@ == old(self)@.last_ref + 1
                            + i
                    &&& final(self)@ == published(old(self)@, capture)
                },
                Err(error) => {
                    &&& refuses(old(self)@, capture.elements@, error)
                    &&& final(self)@ == old(self)@
                },
            },
    {
        let generation = match self.generation.checked_add(1) {
            Some(generation) => generation,
            None => {
                return Err(SnapshotError::GenerationExhausted);
            },
        };
        let count = capture.elements.len() as u64;
        let last_ref = match self.last_ref.checked_add(count) {
            Some(last_ref) => last_ref,
            None => {
                return Err(SnapshotError::ReferenceExhausted);
            },
        };
        let places = match find_places(&capture.elements) {
            Ok(places) => places,
            Err(at) => {
                return Err(SnapshotError::DuplicateIdentity(capture.elements[at].identity.copy()));
            },
        };
        if let Some(at) = find_orphan(&capture.elements, &places) {
            if let Some(parent) = &capture.elements[at].parent {
                return Err(
                    SnapshotError::MissingParent {
                        identity: capture.elements[at].identity.copy(),
                        parent: parent.copy(),
                    },
                );
            }
        }
        let ghost before = self@;
        proof {
            published_is_valid(before, capture);
        }
        let made = publish_elements(self.last_ref, capture.elements, &places);
        let response = SessionSnapshot {
            generation,
            viewport: capture.viewport,
            scroll: capture.scroll,
            elements: made.elements,
            truncated: capture.truncated,
        };
        let copy = response.copy();
        self.generation = generation;
        self.last_ref = last_ref;
        self.latest = made.latest;
        let stored = StoredSnapshot { response: copy, elements: made.stored };
        let ghost grown = before.kept.push(stored@);
        self.snapshots.push_back(stored);
        if self.snapshots.len() > self.retention {
            let _ = self.snapshots.pop_front();
        }
        proof {
            assert(stored@.snapshot == snapshot_of(before, capture));
            assert(self@.kept =~= newest(grown, self.retention as nat));
        }
        Ok(response)
    }

    /// What changed between two adjacent snapshots.
    pub fn diff(&self, from: u64, to: u64) -> (result: Result<SnapshotDiff, DiffError>)
        requires
            self.wf(),
        ensures
            difference(self@, from, to, result),
    {
        let from_index = match self.position(from) {
            Some(index) => index,
            None => {
                return Err(DiffError::NotRetained(from));
            },
        };
        let to_index = match self.position(to) {
            Some(index) => index,
            None => {
                return Err(DiffError::NotRetained(to));
            },
        };
        if to_index == 0 || to_index - 1 != from_index {
            return Err(DiffError::NotAdjacent { from, to });
        }
        assert(self@.kept[from_index as int] == self.snapshots@[from_index as int]@);
        assert(self@.kept[to_index as int] == self.snapshots@[to_index as int]@);
        let before = &self.snapshots[from_index].elements;
        let after = &self.snapshots[to_index].elements;
        Ok(
            SnapshotDiff {
                from_generation: from,
                to_generation: to,
                added: elements_only_in(before, after),
                changed: elements_changed(before, after),
                removed: elements_only_in(after, before),
            },
        )
    }
}

impl Default for SnapshotStore {
    /// An empty store that keeps two snapshots.
    fn default() -> (store: SnapshotStore)
        ensures
            store.wf(),
            store@.retention == 2,
            store@.generation == 0,
            store@.last_ref == 0,
            store@.latest == Map::<u64, (LocatorIdentity, i64)>::empty(),
            store@.kept == Seq::<KeptModel>::empty(),
    {
        SnapshotStore::new(2)
    }
}

/// A capture is either accepted or refused, and for one reason only.
pub proof fn captures_are_accepted_or_refused(
    store: StoreModel,
    elements: Seq<CapturedElement>,
    first: SnapshotError,
    second: SnapshotError,
)
    ensures
        refuses(store, elements, first) ==> !accepts(store, elements),
        refuses(store, elements, first) && refuses(store, elements, second) ==> {
            &&& first is GenerationExhausted == second is GenerationExhausted
            &&& first is ReferenceExhausted == second is ReferenceExhausted
            &&& first is DuplicateIdentity == second is DuplicateIdentity
            &&& first is MissingParent == second is MissingParent
        },
{
}

/// Every reference that a publication issues is new: none of them was issued before, and each
/// resolves to its own element.
pub proof fn references_are_fresh(store: StoreModel, capture: CapturedSnapshot, i: int, j: int)
    requires
        store.valid(),
        accepts(store, capture.elements@),
        0 <= i < capture.elements@.len(),
        0 <= j < capture.elements@.len(),
    ensures
        ({
            let reference = snapshot_of(store, capture).elements[i].element_ref;
            let next = published(store, capture);
            &&& store.last_ref < reference@ <= next.last_ref
            &&& !store.latest.contains_key(reference@)
            &&& next.latest.contains_key(reference@)
            &&& next.latest[reference@] == (
                capture.elements@[i].identity,
                capture.elements@[i].backend_node_id,
            )
            &&& (reference == snapshot_of(store, capture).elements[j].element_ref ==> i == j)
        }),
{
    references_are_issued(store.last_ref, capture.elements@);
    assert(snapshot_of(store, capture).elements[i].element_ref == issued(store.last_ref, i));
}

/// A publication makes every earlier reference stale.
pub proof fn publishing_makes_references_stale(
    store: StoreModel,
    capture: CapturedSnapshot,
    reference: ElementRef,
)
    requires
        store.valid(),
        accepts(store, capture.elements@),
        reference@ <= store.last_ref,
    ensures
        !published(store, capture).latest.contains_key(reference@),
        reference@ <= published(store, capture).last_ref,
{
    references_are_issued(store.last_ref, capture.elements@);
}

/// The parent of a published element is a published element: the one with the identity that the
/// capture named.
pub proof fn parents_are_published(store: StoreModel, capture: CapturedSnapshot, i: int)
    requires
        accepts(store, capture.elements@),
        0 <= i < capture.elements@.len(),
        capture.elements@[i].parent is Some,
    ensures
        exists|j: int|
            {
                &&& 0 <= j < capture.elements@.len()
                &&& snapshot_of(store, capture).elements[i].parent == Some(
                    (#[trigger] snapshot_of(store, capture).elements[j]).element_ref,
                )
                &&& snapshot_of(store, capture).elements[j].identity.text@
                    == capture.elements@[i].parent->0.text@
            },
{
    let elements = capture.elements@;
    let parent = elements[i].parent->0;
    assert(!orphan(elements, i));
    let j = identities(elements).index_of(parent.text@);
    assert(identities(elements)[j] == elements[j].identity.text@);
    assert(snapshot_of(store, capture).elements[j].element_ref == issued(store.last_ref, j));
}

/// After a publication the new snapshot is the newest, and it can be compared with the one before
/// if the store keeps two.
pub proof fn the_newest_snapshot_is_kept(store: StoreModel, capture: CapturedSnapshot)
    requires
        store.valid(),
        accepts(store, capture.elements@),
    ensures
        ({
            let next = published(store, capture);
            &&& next.kept.last().snapshot == snapshot_of(store, capture)
            &&& keeps(next, next.generation)
            &&& elements_at(next, next.generation) == by_identity(capture.elements@)
            &&& (store.generation > 0 && store.retention >= 2 ==> keeps(next, store.generation)
                && elements_at(next, store.generation) == store.kept.last().elements)
        }),
{
    published_is_valid(store, capture);
    let next = published(store, capture);
    assert(next.kept[next.kept.len() - 1].snapshot.generation == next.generation);
    if store.generation > 0 && store.retention >= 2 {
        assert(next.kept[next.kept.len() - 2] == store.kept.last());
    }
}

/// Each element of two snapshots is told of at most once in their difference, and is left out only
/// if both snapshots hold it and it compares equal.
pub proof fn differences_are_complete(
    before: Map<Seq<char>, DiffElement>,
    after: Map<Seq<char>, DiffElement>,
    key: Seq<char>,
)
    ensures
        ({
            let added = only_in(before, after).contains_key(key);
            let changed = changed_between(before, after).contains_key(key);
            let removed = only_in(after, before).contains_key(key);
            &&& !(added && changed)
            &&& !(added && removed)
            &&& !(changed && removed)
            &&& (before.contains_key(key) || after.contains_key(key)) ==> (added || changed
                || removed || (before.contains_key(key) && after.contains_key(key)
                && same_element(before[key], after[key])))
        }),
{
}

impl std::str::FromStr for ElementRef {
    type Err = InvalidElementRef;

    /// Reads a reference.
    fn from_str(value: &str) -> (result: Result<ElementRef, InvalidElementRef>)
        ensures
            match result {
                Ok(reference) => reference_of(value@) == Some(reference@),
                Err(error) => reference_of(value@) is None && error.text@ == value@,
            },
    {
        ElementRef::parse(value)
    }
}

/// Nodes compare equal exactly if they say the same: the role, the name, the value, the description, the
/// place, whether it is in view, and every state.
pub proof fn equal_nodes_say_the_same(left: SemanticNode, right: SemanticNode, same: bool)
    requires
        call_ensures(SemanticNode::same, (&left, &right), same),
    ensures
        ({
            let texts = |one: Option<String>, other: Option<String>| match (one, other) {
                (Some(one), Some(other)) => one@ == other@,
                (None, None) => true,
                _ => false,
            };
            let placed = match (left.bounds, right.bounds) {
                (Some(one), Some(other)) => same_real(one.x, other.x) && same_real(one.y, other.y)
                    && same_real(one.width, other.width) && same_real(one.height, other.height),
                (None, None) => true,
                _ => false,
            };
            same <==> {
                &&& left.role@ == right.role@
                &&& texts(left.name, right.name)
                &&& texts(left.value, right.value)
                &&& texts(left.description, right.description)
                &&& placed
                &&& left.visible == right.visible
                &&& left.state.enabled == right.state.enabled
                &&& left.state.editable == right.state.editable
                &&& left.state.checked == right.state.checked
                &&& left.state.selected == right.state.selected
                &&& left.state.focused == right.state.focused
                &&& left.state.expanded == right.state.expanded
                &&& left.state.pressed == right.state.pressed
            }
        }),
{
}

/// A published snapshot says what was captured: each element in its place, as it was, and nothing else.
pub proof fn snapshots_say_what_was_captured(store: StoreModel, capture: CapturedSnapshot, i: int)
    requires
        accepts(store, capture.elements@),
        0 <= i < capture.elements@.len(),
    ensures
        ({
            let snapshot = snapshot_of(store, capture);
            let told = snapshot.elements[i];
            let element = capture.elements@[i];
            &&& snapshot.generation == store.generation + 1
            &&& snapshot.viewport == capture.viewport
            &&& snapshot.scroll == capture.scroll
            &&& snapshot.truncated == capture.truncated
            &&& snapshot.elements.len() == capture.elements@.len()
            &&& told.element_ref@ == store.last_ref + 1 + i
            &&& told.identity == element.identity
            &&& told.node == element.node
            &&& (element.parent is None ==> told.parent is None)
        }),
{
}

proof fn elements_are_found(elements: Seq<CapturedElement>, key: Seq<char>)
    ensures
        by_identity(elements).contains_key(key) <==> exists|i: int|
            0 <= i < elements.len() && (#[trigger] elements[i]).identity.text@ == key,
    decreases elements.len(),
{
    if elements.len() > 0 {
        let fewer = elements.drop_last();
        elements_are_found(fewer, key);
        if by_identity(fewer).contains_key(key) {
            let i = choose|i: int|
                0 <= i < fewer.len() && (#[trigger] fewer[i]).identity.text@ == key;
            assert(elements[i] == fewer[i]);
        }
        if elements.last().identity.text@ == key {
            assert(elements[elements.len() - 1].identity.text@ == key);
        }
        if exists|i: int| 0 <= i < elements.len() && (#[trigger] elements[i]).identity.text@ == key {
            let i = choose|i: int|
                0 <= i < elements.len() && (#[trigger] elements[i]).identity.text@ == key;
            if i < fewer.len() {
                assert(fewer[i].identity.text@ == key);
            }
        }
    }
}

proof fn elements_are_found_as_captured(elements: Seq<CapturedElement>, i: int)
    requires
        distinct_until(elements, elements.len() as int),
        0 <= i < elements.len(),
    ensures
        by_identity(elements).contains_key(elements[i].identity.text@),
        by_identity(elements)[elements[i].identity.text@] == (DiffElement {
            parent: elements[i].parent,
            node: elements[i].node,
        }),
    decreases elements.len(),
{
    if i < elements.len() - 1 {
        let fewer = elements.drop_last();
        assert forall|k: int| 0 <= k < fewer.len() implies !#[trigger] repeats(fewer, k) by {
            assert(!repeats(elements, k));
            assert(identities(fewer).take(k) =~= identities(elements).take(k));
        }
        elements_are_found_as_captured(fewer, i);
        let last = elements.len() - 1;
        assert(!repeats(elements, last));
        assert(identities(elements).take(last)[i] == elements[i].identity.text@);
    }
}

/// The identities that a capture holds.
pub open spec fn holds(capture: CapturedSnapshot, key: Seq<char>) -> bool {
    exists|i: int|
        0 <= i < capture.elements@.len() && (#[trigger] capture.elements@[i]).identity.text@ == key
}

/// Two snapshots in a row can be compared, and their difference tells of each element what became of it:
/// that it came, with what it is; that it went, with what it was; or, where it does not compare equal, what
/// it was and what it is. Nothing else is told.
pub proof fn differences_tell_what_became_of_elements(
    store: StoreModel,
    first: CapturedSnapshot,
    second: CapturedSnapshot,
    result: Result<SnapshotDiff, DiffError>,
    i: int,
    j: int,
    key: Seq<char>,
)
    requires
        store.valid(),
        store.retention >= 2,
        accepts(store, first.elements@),
        accepts(published(store, first), second.elements@),
        difference(
            published(published(store, first), second),
            (store.generation + 1) as u64,
            (store.generation + 2) as u64,
            result,
        ),
    ensures
        result is Ok,
        ({
            let diff = result->Ok_0;
            let was = first.elements@[i];
            let is = second.elements@[j];
            &&& diff.from_generation == store.generation + 1
            &&& diff.to_generation == store.generation + 2
            &&& (diff.added@.contains_key(key) <==> holds(second, key) && !holds(first, key))
            &&& (diff.removed@.contains_key(key) <==> holds(first, key) && !holds(second, key))
            &&& (diff.changed@.contains_key(key) ==> holds(first, key) && holds(second, key))
            &&& (0 <= j < second.elements@.len() && !holds(first, is.identity.text@) ==> {
                &&& diff.added@[is.identity.text@].node == is.node
                &&& diff.added@[is.identity.text@].parent == is.parent
            })
            &&& (0 <= i < first.elements@.len() && !holds(second, was.identity.text@) ==> {
                &&& diff.removed@[was.identity.text@].node == was.node
                &&& diff.removed@[was.identity.text@].parent == was.parent
            })
            &&& (0 <= i < first.elements@.len() && 0 <= j < second.elements@.len()
                && was.identity.text@ == is.identity.text@ ==> {
                let same_parent = match (was.parent, is.parent) {
                    (Some(one), Some(other)) => one.text@ == other.text@,
                    (None, None) => true,
                    _ => false,
                };
                let told = diff.changed@.contains_key(is.identity.text@);
                &&& (told <==> !(same_parent && same_node(was.node, is.node)))
                &&& (told ==> diff.changed@[is.identity.text@] == (ChangedElement {
                    before_parent: was.parent,
                    after_parent: is.parent,
                    before: was.node,
                    after: is.node,
                }))
            })
        }),
{
    let between = published(store, first);
    let last = published(between, second);
    published_is_valid(store, first);
    published_is_valid(between, second);
    the_newest_snapshot_is_kept(store, first);
    the_newest_snapshot_is_kept(between, second);
    assert(between.kept.last().elements == by_identity(first.elements@));
    elements_are_found(first.elements@, key);
    elements_are_found(second.elements@, key);
    if 0 <= j < second.elements@.len() {
        elements_are_found(first.elements@, second.elements@[j].identity.text@);
        elements_are_found_as_captured(second.elements@, j);
    }
    if 0 <= i < first.elements@.len() {
        elements_are_found(second.elements@, first.elements@[i].identity.text@);
        elements_are_found_as_captured(first.elements@, i);
    }
}

/// Exactly the newest snapshots are kept, as many as the store keeps, and only two in a row of them are
/// compared.
pub proof fn only_neighbours_that_are_kept_are_compared(
    store: StoreModel,
    from: u64,
    to: u64,
    result: Result<SnapshotDiff, DiffError>,
)
    requires
        store.valid(),
        difference(store, from, to, result),
    ensures
        ({
            let oldest = if store.generation < store.retention {
                1int
            } else {
                store.generation - store.retention + 1
            };
            let kept = |generation: u64| oldest <= generation <= store.generation;
            match result {
                Ok(_) => kept(from) && kept(to) && to == from + 1,
                Err(DiffError::NotRetained(missing)) => !kept(missing) && (missing == from
                    || missing == to && kept(from)),
                Err(DiffError::NotAdjacent { from: first, to: second }) => {
                    &&& kept(from)
                    &&& kept(to)
                    &&& to != from + 1
                    &&& first == from
                    &&& second == to
                },
            }
        }),
{
    assert forall|generation: u64| keeps(store, generation) == (store.generation
        - store.kept.len() < generation <= store.generation) by {
        if store.generation - store.kept.len() < generation <= store.generation {
            let i = generation - store.generation + store.kept.len() - 1;
            assert(store.kept[i].snapshot.generation == generation);
        }
    }
}

/// A reference resolves exactly while the newest snapshot issued it: one that was issued before is stale,
/// and one that never was is unknown.
pub proof fn references_are_known_stale_or_unknown(
    store: SnapshotStore,
    reference: ElementRef,
    result: Result<(&LocatorIdentity, i64), ReferenceError>,
)
    requires
        call_ensures(SnapshotStore::resolve, (&store, reference), result),
    ensures
        result is Ok <==> store@.latest.contains_key(reference@),
        result matches Ok(found) ==> store@.latest[reference@] == (*found.0, found.1),
        result matches Err(error) ==> {
            &&& (error is Stale <==> reference@ <= store@.last_ref)
            &&& (error is Unknown <==> reference@ > store@.last_ref)
            &&& (error matches ReferenceError::Stale { reference: told } ==> told == reference)
            &&& (error matches ReferenceError::Unknown { reference: told } ==> told == reference)
        },
{
}

/// A capture that is accepted holds every identity once, and every parent; one that is refused tells of
/// an element that does not.
pub proof fn captures_hold_identities_once_and_parents(
    store: StoreModel,
    elements: Seq<CapturedElement>,
    i: int,
    j: int,
    identity: LocatorIdentity,
)
    requires
        0 <= i < elements.len(),
        0 <= j < elements.len(),
    ensures
        accepts(store, elements) ==> {
            &&& (i != j ==> elements[i].identity.text@ != elements[j].identity.text@)
            &&& (elements[i].parent matches Some(parent) ==> exists|k: int|
                0 <= k < elements.len() && (#[trigger] elements[k]).identity.text@ == parent.text@)
            &&& store.generation < u64::MAX
            &&& store.last_ref + elements.len() <= u64::MAX
        },
        refuses(store, elements, SnapshotError::DuplicateIdentity(identity)) ==> exists|k: int, l: int|
            0 <= k < l < elements.len() && (#[trigger] elements[k]).identity.text@ == (
            #[trigger] elements[l]).identity.text@ && elements[l].identity == identity,
{
    if accepts(store, elements) {
        if i != j {
            let (first, second) = if i < j {
                (i, j)
            } else {
                (j, i)
            };
            assert(!repeats(elements, second));
            assert(identities(elements).take(second)[first] == elements[first].identity.text@);
        }
        assert(!orphan(elements, i));
        if let Some(parent) = elements[i].parent {
            let k = identities(elements).index_of(parent.text@);
            assert(elements[k].identity.text@ == parent.text@);
        }
    }
    if refuses(store, elements, SnapshotError::DuplicateIdentity(identity)) {
        let l = choose|l: int|
            {
                &&& 0 <= l < elements.len()
                &&& distinct_until(elements, l)
                &&& #[trigger] repeats(elements, l)
                &&& identity == elements[l].identity
            };
        let k = identities(elements).take(l).index_of(elements[l].identity.text@);
        assert(elements[k].identity.text@ == elements[l].identity.text@);
    }
}

/// A capture that is published is the next snapshot and gives each element a new reference, numbered on from the
/// last; one that is refused changes nothing, and is refused for a repeated identity, a missing parent, or
/// because no number is left.
pub proof fn captures_are_published_or_refused(
    store: &mut SnapshotStore,
    capture: CapturedSnapshot,
    result: Result<SessionSnapshot, SnapshotError>,
    i: int,
)
    requires
        old(store).wf(),
        call_ensures(SnapshotStore::publish, (store, capture), result),
    ensures
        result matches Ok(snapshot) ==> {
            &&& snapshot.generation == old(store)@.generation + 1
            &&& final(store)@.generation == snapshot.generation
            &&& final(store)@.last_ref == old(store)@.last_ref + capture.elements@.len()
            &&& snapshot.elements@.len() == capture.elements@.len()
            &&& (0 <= i < capture.elements@.len() ==> snapshot.elements@[i].element_ref@
                == old(store)@.last_ref + 1 + i && snapshot.elements@[i].node
                == capture.elements@[i].node)
            &&& snapshot.viewport == capture.viewport && snapshot.scroll == capture.scroll
                && snapshot.truncated == capture.truncated
        },
        result is Err ==> final(store)@ == old(store)@,
        result matches Err(SnapshotError::DuplicateIdentity(identity)) ==> exists|k: int, j: int|
            0 <= j < k < capture.elements@.len() && #[trigger] capture.elements@[j].identity.text@
                == #[trigger] capture.elements@[k].identity.text@ && identity.text@
                == capture.elements@[k].identity.text@,
        result matches Err(SnapshotError::MissingParent { identity, parent }) ==> exists|k: int|
            0 <= k < capture.elements@.len() && (#[trigger] capture.elements@[k]).identity
                == identity && capture.elements@[k].parent == Some(parent),
{
    if let Ok(snapshot) = result {
        assert(snapshot@ == snapshot_of(old(store)@, capture));
        assert(snapshot@.elements.len() == capture.elements@.len());
        if 0 <= i < capture.elements@.len() {
            assert(snapshot.elements@[i] == snapshot@.elements[i]);
        }
    }
    if let Err(SnapshotError::DuplicateIdentity(identity)) = result {
        let k = choose|k: int|
            {
                &&& 0 <= k < capture.elements@.len()
                &&& distinct_until(capture.elements@, k)
                &&& #[trigger] repeats(capture.elements@, k)
                &&& identity == capture.elements@[k].identity
            };
        assert(repeats(capture.elements@, k));
    }
}

/// Once the page changed, no reference leads anywhere; all else stays.
pub proof fn references_are_stale_after_a_change(store: &mut SnapshotStore, number: u64)
    requires
        old(store).wf(),
        call_ensures(SnapshotStore::invalidate_for_mutation, (store,), ()),
    ensures
        !final(store)@.latest.contains_key(number),
        final(store)@.generation == old(store)@.generation,
        final(store)@.last_ref == old(store)@.last_ref,
        final(store)@.kept == old(store)@.kept,
{
}

/// A difference can be taken from the latest snapshot only, and only while it is kept.
pub proof fn differences_start_from_the_latest(
    store: SnapshotStore,
    from: u64,
    result: Result<(), DiffError>,
)
    requires
        store.wf(),
        call_ensures(SnapshotStore::validate_diff_from, (&store, from), result),
    ensures
        result is Ok <==> keeps(store@, from) && from == store@.generation,
        result matches Err(error) ==> (error is NotRetained <==> !keeps(store@, from)),
        result matches Err(DiffError::NotRetained(told)) ==> told == from,
        result matches Err(DiffError::NotAdjacent { from: told, to }) ==> told == from && (
        store@.generation < u64::MAX ==> to == store@.generation + 1),
{
}

/// Nothing is known of an element's state exactly if none of the seven is.
pub proof fn unknown_states_are_all_unknown(state: SemanticState, empty: bool)
    requires
        call_ensures(SemanticState::is_empty, (&state,), empty),
    ensures
        empty <==> state.enabled is None && state.editable is None && state.checked is None
            && state.selected is None && state.focused is None && state.expanded is None
            && state.pressed is None,
{
}

} // verus!
