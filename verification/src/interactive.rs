//! What an interactive session is set up with and what it tells its client.

use crate::json::{
    field, field_of, fields_view, gathered, gathered_keeps_last, list_view, optional_value,
    record_of, text_or_null, text_value, values_view, Json, JsonValue,
};
use crate::number::{same_real, Real64};
use crate::report::FailureCategory;
use crate::snapshot::Viewport;
use crate::text::optional_text;
use vstd::prelude::*;
use vstd::string::*;

verus! {

/// An emulated position.
#[derive(Debug, Clone, Copy, PartialEq, Eq, Structural)]
pub struct Geolocation {
    pub latitude: Real64,
    pub longitude: Real64,
    pub accuracy: Real64,
}

/// Whether two optional positions compare equal.
pub open spec fn same_position(left: Option<Geolocation>, right: Option<Geolocation>) -> bool {
    match (left, right) {
        (Some(left), Some(right)) => {
            &&& same_real(left.latitude, right.latitude)
            &&& same_real(left.longitude, right.longitude)
            &&& same_real(left.accuracy, right.accuracy)
        },
        (None, None) => true,
        _ => false,
    }
}

/// What a session opens its pages with. The timeout is in nanoseconds.
#[derive(Debug, Clone, Copy, PartialEq, Eq, Structural)]
pub struct SessionSettings {
    pub timeout: u128,
    pub viewport: Viewport,
    pub geolocation: Option<Geolocation>,
}

impl SessionSettings {
    /// Whether a flow with the settings `other` can run in pages opened with these.
    pub fn settings_match(&self, other: &SessionSettings) -> (matches: bool)
        ensures
            matches == (self.viewport == other.viewport && same_position(
                self.geolocation,
                other.geolocation,
            )),
    {
        let same_place = match (self.geolocation, other.geolocation) {
            (Some(left), Some(right)) => left.latitude.same(right.latitude)
                && left.longitude.same(right.longitude) && left.accuracy.same(right.accuracy),
            (None, None) => true,
            _ => false,
        };
        self.viewport.width == other.viewport.width && self.viewport.height == other.viewport.height
            && same_place
    }
}

/// What an interactive step did.
#[derive(Debug, Clone, PartialEq, Eq)]
pub struct InteractiveStepResult {
    pub url: String,
    pub title: String,
    pub outputs: Vec<String>,
    pub artifact: Option<String>,
}

/// Why an interactive step failed.
#[derive(Debug, Clone, PartialEq, Eq)]
pub struct InteractiveStepError {
    pub category: FailureCategory,
    pub message: String,
    pub last_observed: Option<String>,
}

/// One page of the session's browser context.
#[derive(Debug, Clone, PartialEq, Eq)]
pub struct SessionPage {
    pub url: String,
    pub title: String,
    pub active: bool,
}

/// What an inspection of the session found.
#[derive(Debug)]
pub struct SessionInspection {
    pub url: String,
    pub title: String,
    pub pages: Vec<SessionPage>,
    pub active_frame: Option<String>,
    pub accessibility: Option<JsonValue>,
    pub screenshot: Option<String>,
}

/// The record that describes a page.
pub open spec fn page_json(page: SessionPage) -> Json {
    Json::Record(
        gathered(
            seq![
                ("url"@, Json::Text(page.url@)),
                ("title"@, Json::Text(page.title@)),
                ("active"@, Json::Bool(page.active)),
            ],
        ),
    )
}

/// The list that describes pages.
pub open spec fn pages_json(pages: Seq<SessionPage>) -> Json {
    Json::List(pages.map_values(|page: SessionPage| page_json(page)))
}

/// The list that describes pages.
pub fn pages_value(pages: &Vec<SessionPage>) -> (value: JsonValue)
    ensures
        value@ == pages_json(pages@),
{
    let mut items: Vec<JsonValue> = Vec::new();
    let mut i: usize = 0;
    while i < pages.len()
        invariant
            i <= pages.len(),
            items.len() == i,
            forall|k: int| 0 <= k < i ==> (#[trigger] items@[k])@ == page_json(pages@[k]),
        decreases pages.len() - i,
    {
        let fields: Vec<(String, JsonValue)> = vec![
            field("url", text_value(pages[i].url.as_str())),
            field("title", text_value(pages[i].title.as_str())),
            field("active", JsonValue::Bool(pages[i].active)),
        ];
        assert(fields_view(fields@) == seq![
            ("url"@, Json::Text(pages@[i as int].url@)),
            ("title"@, Json::Text(pages@[i as int].title@)),
            ("active"@, Json::Bool(pages@[i as int].active)),
        ]);
        items.push(record_of(fields));
        i += 1;
    }
    proof {
        list_view(items);
        assert(values_view(items@) == pages@.map_values(|page: SessionPage| page_json(page)));
    }
    JsonValue::List(items)
}

/// The fields that describe an inspection: the optional parts only where they were asked for.
pub open spec fn inspection_fields(inspection: SessionInspection) -> Seq<(Seq<char>, Json)> {
    let shown = seq![
        ("url"@, Json::Text(inspection.url@)),
        ("title"@, Json::Text(inspection.title@)),
        ("pages"@, pages_json(inspection.pages@)),
        ("active_frame"@, text_or_null(optional_text(inspection.active_frame))),
    ];
    let shown = match inspection.accessibility {
        Some(tree) => shown.push(("accessibility"@, tree@)),
        None => shown,
    };
    match inspection.screenshot {
        Some(path) => shown.push(("screenshot"@, Json::Text(path@))),
        None => shown,
    }
}

impl SessionInspection {
    /// The record that describes the inspection.
    pub fn to_json(&self) -> (value: JsonValue)
        ensures
            value@ == Json::Record(gathered(inspection_fields(*self))),
    {
        let mut fields: Vec<(String, JsonValue)> = vec![
            field("url", text_value(self.url.as_str())),
            field("title", text_value(self.title.as_str())),
            field("pages", pages_value(&self.pages)),
            field("active_frame", optional_value(&self.active_frame)),
        ];
        if let Some(tree) = &self.accessibility {
            fields.push(field("accessibility", tree.clone()));
        }
        if let Some(path) = &self.screenshot {
            fields.push(field("screenshot", text_value(path.as_str())));
        }
        assert(fields_view(fields@) == inspection_fields(*self));
        record_of(fields)
    }
}

/// Settings match exactly if their viewports are the same and their positions are, in each of the three
/// numbers; how long is waited makes no difference.
pub proof fn settings_match_by_viewport_and_position(
    left: SessionSettings,
    right: SessionSettings,
    matched: bool,
    back: bool,
)
    requires
        call_ensures(SessionSettings::settings_match, (&left, &right), matched),
        call_ensures(SessionSettings::settings_match, (&right, &left), back),
    ensures
        matched ==> left.viewport.width == right.viewport.width && left.viewport.height
            == right.viewport.height,
        matched ==> (left.geolocation is Some <==> right.geolocation is Some),
        matched && left.geolocation is Some ==> same_real(
            left.geolocation->0.latitude,
            right.geolocation->0.latitude,
        ) && same_real(left.geolocation->0.longitude, right.geolocation->0.longitude) && same_real(
            left.geolocation->0.accuracy,
            right.geolocation->0.accuracy,
        ),
        left.viewport == right.viewport && left.geolocation is None && right.geolocation is None
            ==> matched,
        left.viewport == right.viewport && left.geolocation is Some && right.geolocation is Some
            && same_real(left.geolocation->0.latitude, right.geolocation->0.latitude) && same_real(
            left.geolocation->0.longitude,
            right.geolocation->0.longitude,
        ) && same_real(left.geolocation->0.accuracy, right.geolocation->0.accuracy) ==> matched,
{
}

/// An inspection is told with the page it saw, each part under its own name, the tree and the picture only if
/// there are any.
pub proof fn inspections_are_told_as_seen(inspection: SessionInspection, value: JsonValue)
    requires
        call_ensures(SessionInspection::to_json, (&inspection,), value),
    ensures
        value@ matches Json::Record(fields) && {
            &&& field_of(fields, "url"@) == Some(Json::Text(inspection.url@))
            &&& field_of(fields, "title"@) == Some(Json::Text(inspection.title@))
            &&& field_of(fields, "pages"@) == Some(pages_json(inspection.pages@))
            &&& (inspection.active_frame matches Some(frame) ==> field_of(fields, "active_frame"@)
                == Some(Json::Text(frame@)))
            &&& (inspection.active_frame is None ==> field_of(fields, "active_frame"@) == Some(
                Json::Null,
            ))
            &&& (inspection.accessibility matches Some(tree) ==> field_of(fields, "accessibility"@)
                == Some(tree@))
            &&& (inspection.screenshot matches Some(path) ==> field_of(fields, "screenshot"@)
                == Some(Json::Text(path@)))
        },
{
    let fields = inspection_fields(inspection);
    reveal_strlit("url");
    reveal_strlit("title");
    reveal_strlit("pages");
    reveal_strlit("active_frame");
    reveal_strlit("accessibility");
    reveal_strlit("screenshot");
    assert("url"@.len() == 3 && "title"@.len() == 5 && "pages"@.len() == 5);
    assert("title"@[0] == 't' && "pages"@[0] == 'p');
    assert("active_frame"@.len() == 12 && "accessibility"@.len() == 13);
    assert("screenshot"@.len() == 10);
    gathered_keeps_last(fields, 0);
    gathered_keeps_last(fields, 1);
    gathered_keeps_last(fields, 2);
    gathered_keeps_last(fields, 3);
    if fields.len() > 4 {
        gathered_keeps_last(fields, 4);
    }
    if fields.len() > 5 {
        gathered_keeps_last(fields, 5);
    }
}

/// A page is told with its address, its title and whether it is the active one, page by page in order.
pub proof fn pages_are_told_in_order(pages: Vec<SessionPage>, value: JsonValue, i: int)
    requires
        call_ensures(pages_value, (&pages,), value),
        0 <= i < pages@.len(),
    ensures
        value@ matches Json::List(items) && items.len() == pages@.len() && (items[i] matches
            Json::Record(fields) && {
            &&& field_of(fields, "url"@) == Some(Json::Text(pages@[i].url@))
            &&& field_of(fields, "title"@) == Some(Json::Text(pages@[i].title@))
            &&& field_of(fields, "active"@) == Some(Json::Bool(pages@[i].active))
        }),
{
    let page = pages@[i];
    let fields = seq![
        ("url"@, Json::Text(page.url@)),
        ("title"@, Json::Text(page.title@)),
        ("active"@, Json::Bool(page.active)),
    ];
    reveal_strlit("url");
    reveal_strlit("title");
    reveal_strlit("active");
    assert("url"@.len() == 3 && "title"@.len() == 5 && "active"@.len() == 6);
    gathered_keeps_last(fields, 0);
    gathered_keeps_last(fields, 1);
    gathered_keeps_last(fields, 2);
    let items = value@->List_0;
    assert(items[i] == page_json(page));
}

} // verus!
