//! A compiled flow: its steps, their operations and locators.

use crate::interactive::{Geolocation, SessionSettings};
use crate::journal::{RelationKind, TextMatch};
use crate::number::Real64;
use crate::snapshot::Viewport;
use crate::values::{Redactor, Resolved, RuntimeValue};
use crate::video::VideoMode;
use vstd::prelude::*;

verus! {

/// How a locator finds its element.
#[derive(Debug)]
pub enum LocatorStrategy {
    Css(Resolved<String>),
    TestId(Resolved<String>),
    Text { value: Resolved<String>, match_kind: TextMatch },
    Label(Resolved<String>),
    Role { value: Resolved<String>, name: Option<Resolved<String>> },
}

/// A condition on how the element stands to another one.
#[derive(Debug)]
pub struct LocatorRelation {
    pub kind: RelationKind,
    pub locator: Box<Locator>,
}

/// What finds an element.
#[derive(Debug)]
pub struct Locator {
    pub strategy: LocatorStrategy,
    pub index: Option<usize>,
    pub checked: Option<bool>,
    pub selected: Option<bool>,
    pub focused: Option<bool>,
    pub enabled: Option<bool>,
    pub relations: Vec<LocatorRelation>,
}

/// A point relative to an element.
#[derive(Debug, Clone, Copy, PartialEq, Eq, Structural)]
pub struct RelativePoint {
    pub x: Real64,
    pub y: Real64,
}

/// A point of the viewport, in CSS pixels.
#[derive(Debug, Clone, Copy, PartialEq, Eq, Structural)]
pub struct ViewportPoint {
    pub x: u32,
    pub y: u32,
}

/// A part of the viewport, in CSS pixels.
#[derive(Debug, Clone, Copy, PartialEq, Eq, Structural)]
pub struct Crop {
    pub x: u32,
    pub y: u32,
    pub width: u32,
    pub height: u32,
}

/// What an opened page is waited for.
#[derive(Debug)]
pub enum SettleCondition {
    Visible(Locator),
    Stable(Locator),
}

/// Which page becomes active.
#[derive(Debug)]
pub enum PageSwitch {
    Popup,
    Opener,
    Name(Resolved<String>),
    Url(Resolved<String>),
}

/// Which frame becomes active.
#[derive(Debug)]
pub enum FrameSwitch {
    Target(Locator),
    Main,
    Parent,
}

/// A step that starts or stops the recording.
#[derive(Debug, Clone, Copy, PartialEq, Eq, Structural)]
pub enum RecordingControl {
    Start,
    Stop,
}

/// How a step answers a dialog.
#[derive(Debug, Clone, Copy, PartialEq, Eq, Structural)]
pub enum NativeDialogResponse {
    Accept,
    Dismiss,
}

/// What a step clears.
#[derive(Debug, Clone, Copy, PartialEq, Eq, Structural)]
pub enum ClearTarget {
    Cookies,
    Storage,
    Indexeddb,
    CacheStorage,
    ServiceWorkers,
}

/// A modifier key.
#[derive(Debug, Clone, Copy, PartialEq, Eq, Structural)]
pub enum Modifier {
    Alt,
    Control,
    Meta,
    Shift,
}

/// A key with a name.
#[derive(Debug, Clone, Copy, PartialEq, Eq, Structural)]
pub enum NamedKey {
    Enter,
    Tab,
    Escape,
    Space,
    Backspace,
    Delete,
    ArrowUp,
    ArrowDown,
    ArrowLeft,
    ArrowRight,
    Home,
    End,
    PageUp,
    PageDown,
}

/// A key that a step presses.
#[derive(Debug, Clone, Copy, PartialEq, Eq, Structural)]
pub enum Key {
    Character(char),
    Named(NamedKey),
}

/// What the address is compared with.
#[derive(Debug)]
pub enum UrlExpectation {
    Equals(Resolved<String>),
    Path(Resolved<String>),
}

/// What a screenshot is compared with. The ratio is the largest part of changed pixels.
#[derive(Debug)]
pub struct VisualExpectation {
    pub baseline: String,
    pub crop: Option<Crop>,
    pub channel_tolerance: u8,
    pub max_changed_ratio: Real64,
}

/// What a step asserts.
#[derive(Debug)]
pub enum Assertion {
    Visible(Locator),
    Hidden(Locator),
    Text { target: Locator, expected: Resolved<String>, match_kind: TextMatch },
    Url(UrlExpectation),
    Screenshot(VisualExpectation),
}

/// What a step does. Durations are in nanoseconds.
#[derive(Debug)]
#[allow(inconsistent_fields)]
pub enum Operation {
    Open { url: Resolved<String>, settle: Option<SettleCondition> },
    Click { target: Locator, position: Option<RelativePoint> },
    ClickPoint { point: ViewportPoint },
    DoubleClick { target: Locator, position: Option<RelativePoint> },
    Fill { target: Locator, value: RuntimeValue },
    Erase { target: Locator },
    Select { target: Locator, value: RuntimeValue },
    Scroll { x: i64, y: i64 },
    ScrollUntilVisible { target: Locator, x: i32, y: i32 },
    Swipe { target: Locator, x: i32, y: i32, duration: u128 },
    LongPress { target: Locator, duration: u128 },
    WaitUntilVisible { target: Locator },
    WaitUntilStable { target: Locator },
    Pause { duration: u128 },
    Back,
    SwitchPage(PageSwitch),
    SwitchFrame(FrameSwitch),
    Press { target: Locator, key: Key, modifiers: Vec<Modifier> },
    Screenshot { name: String, crop: Option<Crop> },
    Recording(RecordingControl),
    Dialog { action: NativeDialogResponse, text: Option<RuntimeValue> },
    Clear(ClearTarget),
    Evaluate { script: String, args: Vec<RuntimeValue>, save_as: Option<String> },
    Request {
        method: String,
        url: RuntimeValue,
        headers: Vec<(String, RuntimeValue)>,
        body: Option<RuntimeValue>,
        expected_status: u16,
        save_as: Option<String>,
    },
    Assert(Assertion),
}

/// A condition over runtime values.
#[derive(Debug)]
pub enum Expression {
    All(Vec<Expression>),
    Any(Vec<Expression>),
    Not(Box<Expression>),
    Equals(RuntimeValue, RuntimeValue),
    NotEquals(RuntimeValue, RuntimeValue),
    Boolean(RuntimeValue),
}

/// Whether a guard decides once, or ends its loop where it fails.
#[derive(Debug)]
#[allow(inconsistent_fields)]
pub enum GuardKind {
    When(Expression),
    While { expression: Expression, loop_id: usize },
}

/// A condition on a group of steps.
#[derive(Debug)]
pub struct Guard {
    pub id: usize,
    pub kind: GuardKind,
}

/// A condition on one step.
#[derive(Debug)]
pub enum When {
    Visible(Locator),
    Hidden(Locator),
    Expression(Expression),
}

/// One step of a flow. The timeout is in nanoseconds.
#[derive(Debug)]
pub struct CompiledStep {
    pub index: usize,
    pub source: String,
    pub source_index: usize,
    pub id: Option<String>,
    pub operation: Operation,
    pub timeout: u128,
    pub retries: u32,
    pub guards: Vec<Guard>,
    pub when: Option<When>,
}

/// What is drawn over a recorded page.
#[derive(Debug, Clone, Copy, PartialEq, Eq, Structural)]
pub struct PresentationOverlays {
    pub pointer: bool,
    pub step: bool,
    pub url: bool,
}

impl PresentationOverlays {
    /// Whether anything is drawn.
    pub fn any(&self) -> (any: bool)
        ensures
            any == (self.pointer || self.step || self.url),
    {
        self.pointer || self.step || self.url
    }
}

/// The settings of a flow. The timeout is in nanoseconds.
#[derive(Debug, Clone, Copy, PartialEq, Eq, Structural)]
pub struct FlowSettings {
    pub timeout: u128,
    pub viewport: Viewport,
    pub geolocation: Option<Geolocation>,
    pub video: VideoMode,
    pub overlays: PresentationOverlays,
}

/// A compiled flow.
#[derive(Debug)]
pub struct CompiledFlow {
    pub name: String,
    pub source: String,
    pub steps: Vec<CompiledStep>,
    pub settings: FlowSettings,
    pub manual_recording: bool,
    pub recording_secret_warning: Option<String>,
    pub inputs: Vec<(String, Resolved<String>)>,
    pub redactor: Redactor,
}

impl SessionSettings {
    /// What a session that runs the flow opens its pages with.
    pub fn from_flow(flow: &CompiledFlow) -> (settings: SessionSettings)
        ensures
            settings == (SessionSettings {
                timeout: flow.settings.timeout,
                viewport: flow.settings.viewport,
                geolocation: flow.settings.geolocation,
            }),
    {
        SessionSettings {
            timeout: flow.settings.timeout,
            viewport: flow.settings.viewport,
            geolocation: flow.settings.geolocation,
        }
    }
}

/// A presentation is overlaid exactly if anything of it is to be shown.
pub proof fn overlays_are_any_of_three(overlays: PresentationOverlays, any: bool)
    requires
        call_ensures(PresentationOverlays::any, (&overlays,), any),
    ensures
        !any <==> !overlays.pointer && !overlays.step && !overlays.url,
{
}

/// A session takes its settings from its first flow.
pub proof fn sessions_take_the_settings_of_their_flow(
    flow: CompiledFlow,
    settings: SessionSettings,
)
    requires
        call_ensures(SessionSettings::from_flow, (&flow,), settings),
    ensures
        settings.timeout == flow.settings.timeout,
        settings.viewport == flow.settings.viewport,
        settings.geolocation == flow.settings.geolocation,
{
}

} // verus!
