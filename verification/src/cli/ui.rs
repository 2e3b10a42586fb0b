use crate::cli::app::StreamState;
use crate::radio::{RadioState, Station};
use vstd::prelude::*;
use vstd::string::StringExecFns;

verus! {

/// How a popup of `percent` percent of a span splits that span: a margin,
/// the popup, and a margin of the same size.
pub fn popup_split(percent: u16) -> (parts: (u16, u16, u16))
    requires
        percent <= 100,
    ensures
        parts.0 == (100 - percent) / 2,
        parts.1 == percent,
        parts.2 == parts.0,
        parts.0 + parts.1 + parts.2 <= 100,
        100 - (parts.0 + parts.1 + parts.2) <= 1,
{
    let margin = (100 - percent) / 2;
    (margin, percent, margin)
}

/// How a line of the search popup is shown.
#[derive(Clone, Copy, Debug, PartialEq, Eq, Structural)]
pub enum PopupStyle {
    /// The prompt shown while the query is empty.
    Hint,
    /// The query typed so far.
    Query,
    /// The search is still running.
    Loading,
    /// The search failed.
    Failure,
    /// The station under the cursor.
    Selected,
    /// A station after the one under the cursor.
    Station,
}

/// One line of the search popup.
#[derive(Debug)]
pub struct PopupLine {
    pub text: String,
    pub style: PopupStyle,
}

/// The number of stations the popup lists: those from the cursor on.
pub open spec fn listed_from(len: nat, selected: usize) -> nat {
    if selected < len {
        (len - selected) as nat
    } else {
        0
    }
}

/// Line `1 + k` of the popup shows the station `k` places after the cursor,
/// highlighted when it is the one under the cursor.
pub open spec fn shows_station(lines: Seq<PopupLine>, list: Seq<Station>, selected: int, k: int) -> bool {
    &&& lines[1 + k].text@ == list[selected + k].name@
    &&& (lines[1 + k].style == PopupStyle::Selected <==> k == 0)
    &&& (k > 0 ==> lines[1 + k].style == PopupStyle::Station)
}

/// The lines of the search popup: the query (or a prompt while it is empty),
/// then the state of the search: a loading note, a failure note, or the
/// stations from the cursor on, the first of them highlighted.
pub fn search_popup_lines(query: &str, radio: &RadioState, selected: usize) -> (lines: Vec<PopupLine>)
    ensures
        lines@.len() >= 1,
        query@.len() == 0 ==> lines@[0].text@ == "Type to search"@ && lines@[0].style
            == PopupStyle::Hint,
        query@.len() > 0 ==> lines@[0].text@ == query@ && lines@[0].style == PopupStyle::Query,
        match *radio {
            RadioState::Pending => lines@.len() == 2 && lines@[1].text@ == "Loading stations..."@
                && lines@[1].style == PopupStyle::Loading,
            RadioState::Error(_) => lines@.len() == 2 && lines@[1].text@
                == "An error occurred loading stations"@ && lines@[1].style == PopupStyle::Failure,
            RadioState::Complete(list) => {
                &&& lines@.len() == 1 + listed_from(list@.len(), selected)
                &&& forall|k: int| 0 <= k < lines@.len() - 1 ==> #[trigger] shows_station(lines@, list@, selected as int, k)
            },
        },
{
    let mut lines: Vec<PopupLine> = Vec::new();
    if query.is_empty() {
        lines.push(PopupLine { text: String::from_str("Type to search"), style: PopupStyle::Hint });
    } else {
        lines.push(PopupLine { text: String::from_str(query), style: PopupStyle::Query });
    }
    match radio {
        RadioState::Pending => {
            lines.push(
                PopupLine { text: String::from_str("Loading stations..."), style: PopupStyle::Loading },
            );
        },
        RadioState::Error(_) => {
            lines.push(
                PopupLine {
                    text: String::from_str("An error occurred loading stations"),
                    style: PopupStyle::Failure,
                },
            );
        },
        RadioState::Complete(list) => {
            let mut i = selected;
            while i < list.len()
                invariant
                    *radio == RadioState::Complete(*list),
                    selected <= i,
                    i <= list@.len() || i == selected,
                    lines@.len() == 1 + (i - selected),
                    query@.len() == 0 ==> lines@[0].text@ == "Type to search"@ && lines@[0].style
                        == PopupStyle::Hint,
                    query@.len() > 0 ==> lines@[0].text@ == query@ && lines@[0].style
                        == PopupStyle::Query,
                    forall|k: int| 0 <= k < lines@.len() - 1 ==> #[trigger] shows_station(lines@, list@, selected as int, k),
                decreases list@.len() - i,
            {
                let style = if i == selected {
                    PopupStyle::Selected
                } else {
                    PopupStyle::Station
                };
                let ghost before = lines@;
                let name = list[i].name.clone();
                assert(name@ == list@[i as int].name@);
                lines.push(PopupLine { text: name, style });
                proof {
                    assert forall|k: int| 0 <= k < lines@.len() - 1 implies #[trigger] shows_station(lines@, list@, selected as int, k) by {
                        if k < before.len() - 1 {
                            assert(lines@[1 + k] == before[1 + k]);
                            assert(shows_station(before, list@, selected as int, k));
                        } else {
                            assert(k == i - selected);
                            assert(lines@[1 + k].text == name);
                        }
                    }
                }
                i = i + 1;
            }
        },
    }
    lines
}

/// When a search has completed, the lines that follow the query are the
/// stations from the cursor on, in the order of the list: the station under
/// the cursor comes first and is highlighted, wherever the cursor is (on the
/// first station too), and every later one is shown plain. A cursor past the
/// end of the list leaves the query alone in the popup.
pub proof fn law_popup_highlights_the_cursor(lines: Seq<PopupLine>, list: Seq<Station>, selected: usize)
    requires
        lines.len() == 1 + listed_from(list.len(), selected),
        forall|k: int| 0 <= k < lines.len() - 1 ==> #[trigger] shows_station(lines, list, selected as int, k),
    ensures
        selected < list.len() ==> {
            &&& lines.len() == 1 + list.len() - selected
            &&& lines[1].text@ == list[selected as int].name@
            &&& lines[1].style == PopupStyle::Selected
        },
        forall|j: int|
            2 <= j < lines.len() ==> #[trigger] lines[j].style == PopupStyle::Station && lines[j].text@
                == list[selected + j - 1].name@,
        selected >= list.len() ==> lines.len() == 1,
{
    if selected < list.len() {
        assert(shows_station(lines, list, selected as int, 0));
    }
    assert forall|j: int| 2 <= j < lines.len() implies #[trigger] lines[j].style == PopupStyle::Station
        && lines[j].text@ == list[selected + j - 1].name@ by {
        assert(shows_station(lines, list, selected as int, j - 1));
    }
}

/// The status line's station text, and whether it reports an error.
pub fn status_text(state: &StreamState) -> (t: (String, bool))
    ensures
        match *state {
            StreamState::Playing { name } => t.0@ == name@ && !t.1,
            StreamState::Error { message } => t.0@ == "Stream error: "@ + message@ && t.1,
            StreamState::Paused => t.0@ == "No Station Playing"@ && !t.1,
        },
{
    match state {
        StreamState::Playing { name } => (name.clone(), false),
        StreamState::Error { message } => {
            let mut text = String::from_str("Stream error: ");
            text.append(message.as_str());
            (text, true)
        },
        StreamState::Paused => (String::from_str("No Station Playing"), false),
    }
}

} // verus!
