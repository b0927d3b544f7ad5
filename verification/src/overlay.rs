//! What is drawn over a recorded page.

use crate::codec::{json_text, write_json};
use crate::flow::PresentationOverlays;
use crate::json::{text_value, Json};
use crate::secrets::redacted;
use crate::text::{decimal, decimal_text};
use crate::values::Redactor;
use vstd::prelude::*;
use vstd::string::*;

verus! {

/// Waits until the page has drawn two frames.
pub const SETTLE_EXPRESSION: &'static str =
    "new Promise(resolve => requestAnimationFrame(() => requestAnimationFrame(resolve)))";

/// Makes the overlay, up to whether it follows the pointer.
pub const OVERLAY_HOST: &'static str = r#"(() => {
            const tag = 'playrust-presentation-overlay';
            let host = document.querySelector(`${tag}[data-playrust-presentation-overlay]`);
            if (!host) {
                if (typeof document.__playrustPresentationOverlayCleanup === 'function') {
                    document.__playrustPresentationOverlayCleanup();
                }
                host = document.createElement(tag);
                host.dataset.playrustPresentationOverlay = '';
                host.setAttribute('aria-hidden', 'true');
                host.style.cssText = 'all:initial;display:contents;pointer-events:none';
                const shadow = host.attachShadow({ mode: 'open' });
                const style = document.createElement('style');
                style.textContent = `
                    :host, * { box-sizing:border-box;pointer-events:none }
                    #context { position:fixed;left:0;right:0;top:0;display:flex;gap:16px;padding:10px 14px;background:rgba(0,0,0,.72);font:600 14px sans-serif;color:white;text-shadow:0 1px 2px #000;white-space:nowrap;overflow:hidden }
                    #pointer { position:fixed;width:18px;height:18px;border:3px solid #ff3b30;border-radius:50%;transform:translate(-50%,-50%);left:50%;top:50% }
                    [data-marker="click"] { position:fixed;width:34px;height:34px;border:4px solid #34c759;border-radius:50%;transform:translate(-50%,-50%);box-shadow:0 0 0 5px rgba(52,199,89,.28) }
                    [data-marker="scroll"] { position:fixed;min-width:44px;padding:8px 12px;border-radius:22px;transform:translate(-50%,-50%);background:#ffd60a;font:700 22px sans-serif;color:#111;text-align:center }
                `;
                const context = document.createElement('div');
                context.id = 'context';
                const pointer = document.createElement('div');
                pointer.id = 'pointer';
                const markers = document.createElement('div');
                markers.id = 'markers';
                shadow.append(style, context, pointer, markers);

                const showMarker = (kind, x, y, text) => {
                    markers.querySelector(`[data-marker="${kind}"]`)?.remove();
                    const marker = document.createElement('div');
                    marker.dataset.marker = kind;
                    if (Number.isFinite(x)) marker.style.left = `${x}px`;
                    if (Number.isFinite(y)) marker.style.top = `${y}px`;
                    marker.textContent = text;
                    markers.appendChild(marker);
                };
                const onMove = event => {
                    pointer.style.left = `${event.clientX}px`;
                    pointer.style.top = `${event.clientY}px`;
                };
                const onPointerDown = event => showMarker('click', event.clientX, event.clientY, '');
                const onWheel = event => showMarker(
                    'scroll',
                    innerWidth / 2,
                    innerHeight / 2,
                    Math.abs(event.deltaY) >= Math.abs(event.deltaX)
                        ? (event.deltaY >= 0 ? '↓' : '↑')
                        : (event.deltaX >= 0 ? '→' : '←')
                );
                if ("#;

/// Makes the overlay, up to the text of the step.
pub const OVERLAY_CONTEXT: &'static str = r#") {
                    document.addEventListener('pointermove', onMove, true);
                    document.addEventListener('pointerdown', onPointerDown, true);
                    document.addEventListener('wheel', onWheel, true);
                    document.__playrustPresentationOverlayCleanup = () => {
                        document.removeEventListener('pointermove', onMove, true);
                        document.removeEventListener('pointerdown', onPointerDown, true);
                        document.removeEventListener('wheel', onWheel, true);
                    };
                }
                document.documentElement.appendChild(host);
            }
            const shadow = host.shadowRoot;
            const context = shadow.getElementById('context');
            context.replaceChildren();
            const add = value => {
                if (!value) return;
                const item = document.createElement('span');
                item.textContent = value;
                context.appendChild(item);
            };
            add("#;

/// Makes the overlay, up to the address.
pub const OVERLAY_ADDRESS: &'static str = r#");
            add("#;

/// Makes the overlay, up to whether it shows the pointer.
pub const OVERLAY_POINTER: &'static str = r#");
            shadow.getElementById('pointer').hidden = !"#;

/// The end of what makes the overlay.
pub const OVERLAY_END: &'static str = r#";
        })()"#;

/// Removes the overlay.
pub const REMOVE_OVERLAY: &'static str = r#"(() => {
                if (typeof document.__playrustPresentationOverlayCleanup === 'function') {
                    document.__playrustPresentationOverlayCleanup();
                    delete document.__playrustPresentationOverlayCleanup;
                }
                document.querySelector('playrust-presentation-overlay[data-playrust-presentation-overlay]')?.remove();
            })()"#;

/// What the overlay tells of a step.
pub open spec fn step_caption(index: usize, id: Option<String>) -> Seq<char> {
    let number = "Step "@ + decimal(index as nat);
    match id {
        Some(id) => number + " · "@ + id@,
        None => number,
    }
}

/// A text as a script holds it.
pub open spec fn script_text(text: Seq<char>) -> Seq<char> {
    json_text(Json::Text(text))
}

/// What is told where it is wanted, without secrets.
pub open spec fn told_if(wanted: bool, text: Seq<char>, secrets: Seq<Seq<char>>) -> Seq<char> {
    if wanted {
        redacted(text, secrets)
    } else {
        Seq::empty()
    }
}

/// Whether something is drawn, as a script tells it.
pub open spec fn flag_text(flag: bool) -> Seq<char> {
    if flag {
        "true"@
    } else {
        "false"@
    }
}

/// The script that draws an overlay. Every text in it stands as JSON, so that no text can end it.
pub open spec fn overlay_text(
    index: usize,
    id: Option<String>,
    url: Seq<char>,
    overlays: PresentationOverlays,
    secrets: Seq<Seq<char>>,
) -> Seq<char> {
    OVERLAY_HOST@ + flag_text(overlays.pointer) + OVERLAY_CONTEXT@ + script_text(
        told_if(overlays.step, step_caption(index, id), secrets),
    ) + OVERLAY_ADDRESS@ + script_text(told_if(overlays.url, url, secrets)) + OVERLAY_POINTER@
        + flag_text(overlays.pointer) + OVERLAY_END@
}

fn caption(index: usize, id: &Option<String>) -> (text: String)
    ensures
        text@ == step_caption(index, *id),
{
    let mut text = "Step ".to_owned();
    let number = decimal_text(index as u64);
    text.append(number.as_str());
    if let Some(id) = id {
        text.append(" · ");
        text.append(id.as_str());
    }
    text
}

fn tell_if(wanted: bool, text: &str, redactor: &Redactor) -> (told: String)
    ensures
        told@ == told_if(wanted, text@, redactor.secrets@),
{
    if wanted {
        redactor.redact(text)
    } else {
        String::new()
    }
}

fn flag_name(flag: bool) -> (text: &'static str)
    ensures
        text@ == flag_text(flag),
{
    if flag {
        "true"
    } else {
        "false"
    }
}

fn quote_json(text: &str) -> (quoted: String)
    ensures
        quoted@ == script_text(text@),
{
    let value = text_value(text);
    write_json(&value)
}

/// The script that draws an overlay for a step at an address.
pub fn overlay_script(
    index: usize,
    id: &Option<String>,
    url: &str,
    overlays: PresentationOverlays,
    redactor: &Redactor,
) -> (script: String)
    ensures
        script@ == overlay_text(index, *id, url@, overlays, redactor.secrets@),
{
    let step = caption(index, id);
    let step = tell_if(overlays.step, step.as_str(), redactor);
    let step = quote_json(step.as_str());
    let address = tell_if(overlays.url, url, redactor);
    let address = quote_json(address.as_str());
    let pointer = flag_name(overlays.pointer);
    let mut script = OVERLAY_HOST.to_owned();
    script.append(pointer);
    script.append(OVERLAY_CONTEXT);
    script.append(step.as_str());
    script.append(OVERLAY_ADDRESS);
    script.append(address.as_str());
    script.append(OVERLAY_POINTER);
    script.append(pointer);
    script.append(OVERLAY_END);
    assert(script@ =~= overlay_text(index, *id, url@, overlays, redactor.secrets@));
    script
}

/// An overlay shows of a step what it is set to show, without secrets, and nothing of what it is not.
pub proof fn overlays_show_what_they_are_set_to(
    index: usize,
    id: Option<String>,
    url: &str,
    overlays: PresentationOverlays,
    redactor: Redactor,
    script: String,
)
    requires
        call_ensures(overlay_script, (index, &id, url, overlays, &redactor), script),
    ensures
        ({
            let pointer = if overlays.pointer {
                "true"@
            } else {
                "false"@
            };
            let number = "Step "@ + decimal(index as nat);
            let step = if !overlays.step {
                Seq::empty()
            } else {
                redacted(
                    match id {
                        Some(id) => number + " · "@ + id@,
                        None => number,
                    },
                    redactor.secrets@,
                )
            };
            let place = if !overlays.url {
                Seq::empty()
            } else {
                redacted(url@, redactor.secrets@)
            };
            script@ == OVERLAY_HOST@ + pointer + OVERLAY_CONTEXT@ + json_text(Json::Text(step))
                + OVERLAY_ADDRESS@ + json_text(Json::Text(place)) + OVERLAY_POINTER@ + pointer
                + OVERLAY_END@
        }),
{
}

} // verus!
