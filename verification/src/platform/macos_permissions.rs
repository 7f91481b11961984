//! macOS privacy settings: which System Settings panes to open.
use vstd::prelude::*;
use crate::text::str_eq;

verus! {

pub fn settings_label() -> (label: &'static str)
    ensures
        label@ == "Accessibility & Input Monitoring"@,
{
    "Accessibility & Input Monitoring"
}

/// The System Settings URLs to try, most specific first, for a permission
/// kind ("accessibility", "input_monitoring"; anything else opens the
/// general privacy pane).
pub open spec fn settings_pane_texts(kind: Seq<char>) -> Seq<Seq<char>> {
    if kind == "input_monitoring"@ {
        seq![
            "x-apple.systempreferences:com.apple.preference.security?Privacy_ListenEvent"@,
            "x-apple.systempreferences:com.apple.preference.security?Privacy"@,
        ]
    } else if kind == "accessibility"@ {
        seq![
            "x-apple.systempreferences:com.apple.preference.security?Privacy_Accessibility"@,
            "x-apple.systempreferences:com.apple.preference.security?Privacy"@,
        ]
    } else {
        seq!["x-apple.systempreferences:com.apple.preference.security?Privacy"@]
    }
}

pub open spec fn str_views(v: Seq<&'static str>) -> Seq<Seq<char>> {
    v.map_values(|s: &'static str| s@)
}

pub fn settings_pane_urls(kind: &str) -> (urls: Vec<&'static str>)
    ensures
        str_views(urls@) == settings_pane_texts(kind@),
{
    let urls = if str_eq(kind, "input_monitoring") {
        vec![
            "x-apple.systempreferences:com.apple.preference.security?Privacy_ListenEvent",
            "x-apple.systempreferences:com.apple.preference.security?Privacy",
        ]
    } else if str_eq(kind, "accessibility") {
        vec![
            "x-apple.systempreferences:com.apple.preference.security?Privacy_Accessibility",
            "x-apple.systempreferences:com.apple.preference.security?Privacy",
        ]
    } else {
        vec!["x-apple.systempreferences:com.apple.preference.security?Privacy"]
    };
    assert(str_views(urls@) =~= settings_pane_texts(kind@));
    urls
}

/// Every permission kind's list of panes ends with the general privacy pane,
/// so opening falls back to it.
pub proof fn lemma_settings_panes_fall_back_to_privacy(kind: Seq<char>)
    ensures
        settings_pane_texts(kind).len() >= 1,
        settings_pane_texts(kind).last() == "x-apple.systempreferences:com.apple.preference.security?Privacy"@,
{
}

/// What opening the settings does next.
#[derive(Debug)]
pub enum SettingsStep {
    /// Open the pane at this position of the list.
    TryPane(usize),
    /// Stop with this result.
    Done(Result<(), String>),
}

/// The next step of opening a list of `pane_count` panes, `tried` of which
/// have been tried, the last with outcome `last`: stop at the first pane
/// that opens, try the next while there is one, and otherwise report the
/// last failure (or that no pane is configured).
pub open spec fn settings_step_of(pane_count: usize, tried: usize, last: Option<Result<(), String>>) -> Option<Result<(), Seq<char>>> {
    if last matches Some(Ok(())) {
        Some(Ok(()))
    } else if tried < pane_count {
        None
    } else {
        match last {
            Some(Err(e)) => Some(Err(e@)),
            _ => Some(Err("no settings pane URL configured"@)),
        }
    }
}

pub fn next_settings_step(pane_count: usize, tried: usize, last: Option<Result<(), String>>) -> (step: SettingsStep)
    ensures
        match settings_step_of(pane_count, tried, last) {
            None => step == SettingsStep::TryPane(tried),
            Some(Ok(())) => step matches SettingsStep::Done(Ok(())),
            Some(Err(m)) => step matches SettingsStep::Done(Err(e)) && e@ == m,
        },
{
    match last {
        Some(Ok(())) => SettingsStep::Done(Ok(())),
        _ => if tried < pane_count {
            SettingsStep::TryPane(tried)
        } else {
            match last {
                Some(Err(e)) => SettingsStep::Done(Err(e)),
                _ => SettingsStep::Done(Err(String::from_str("no settings pane URL configured"))),
            }
        },
    }
}

} // verus!
