//! What the demo shows of the nodes: section headings, and one line for each
//! result.
use crate::protocol;
use crate::protocol::{NodeError, NodeErrorView, Response, ResponseView};
use crate::registry::Registry;
use crate::text;
use crate::text::{decimal_text, join3, pad_right, truth_text};
use vstd::prelude::*;
use vstd::string::*;

verus! {

/// The width of a section title.
pub const TITLE_WIDTH: usize = 51;

/// What is shown of the outcome of a call.
pub open spec fn shown(outcome: Result<ResponseView, NodeErrorView>) -> Seq<char> {
    match outcome {
        Ok(ResponseView::Completed) => "✓  Ok"@,
        Ok(ResponseView::Status(status)) => "✓  Status: running="@ + text::truth(status.running)
            + ", uptime="@ + text::decimal(status.uptime_secs) + "s, msgs="@ + text::decimal(
            status.message_count,
        ),
        Ok(ResponseView::TestResult(result)) => (if result.passed {
            "✓  Test: PASS — "@
        } else {
            "✗  Test: FAIL — "@
        }) + result.message,
        Ok(ResponseView::Error(message)) => "✗  Node error: "@ + message,
        Err(error) => "✗  Transport error: "@ + error.sentence(),
    }
}

/// The line for the outcome of a call to the node `id`.
pub open spec fn line_of(id: Seq<char>, outcome: Result<ResponseView, NodeErrorView>) -> Seq<char> {
    "  ["@ + id + "]  "@ + shown(outcome)
}

fn show(outcome: &Result<Response, NodeError>) -> (r: String)
    ensures
        r@ == shown(protocol::outcome_view(*outcome)),
{
    match outcome {
        Ok(Response::Completed) => String::from_str("✓  Ok"),
        Ok(Response::Status(status)) => {
            let mut r = join3("✓  Status: running=", truth_text(status.running), ", uptime=");
            r.append(decimal_text(status.uptime_secs).as_str());
            r.append("s, msgs=");
            r.append(decimal_text(status.message_count).as_str());
            r
        },
        Ok(Response::TestResult(result)) => {
            let mut r = String::from_str(
                if result.passed {
                    "✓  Test: PASS — "
                } else {
                    "✗  Test: FAIL — "
                },
            );
            r.append(result.message.as_str());
            r
        },
        Ok(Response::Error(message)) => {
            let mut r = String::from_str("✗  Node error: ");
            r.append(message.as_str());
            r
        },
        Err(error) => {
            let mut r = String::from_str("✗  Transport error: ");
            r.append(error.to_text().as_str());
            r
        },
    }
}

/// The line for the outcome of a call to the node `node_id`.
pub fn result_line(node_id: &str, outcome: &Result<Response, NodeError>) -> (r: String)
    ensures
        r@ == line_of(node_id@, protocol::outcome_view(*outcome)),
{
    let mut r = join3("  [", node_id, "]  ");
    r.append(show(outcome).as_str());
    r
}

/// The lines for the results of a broadcast, in the order of the node
/// identifiers.
pub fn result_lines(results: &Registry<Result<Response, NodeError>>) -> (r: Vec<String>)
    requires
        results.well_formed(),
    ensures
        r@.len() == results.ids().len(),
        forall|i: int|
            0 <= i < r@.len() ==> (#[trigger] r@[i])@ == line_of(
                results.ids()[i],
                protocol::outcome_view(results.values()[i]),
            ),
{
    let mut r: Vec<String> = Vec::new();
    let count: usize = results.len();
    let mut i: usize = 0;
    while i < count
        invariant
            results.well_formed(),
            count == results.ids().len(),
            i <= count,
            r@.len() == i,
            forall|j: int|
                0 <= j < i ==> (#[trigger] r@[j])@ == line_of(
                    results.ids()[j],
                    protocol::outcome_view(results.values()[j]),
                ),
        decreases count - i,
    {
        r.push(result_line(results.id_at(i), results.value_at(i)));
        i = i + 1;
    }
    r
}

/// The lines of a section heading: an empty line, and the title in a box.
pub open spec fn section_of(title: Seq<char>) -> Seq<Seq<char>> {
    seq![
        Seq::<char>::empty(),
        "┌─────────────────────────────────────────────────────┐"@,
        "│  "@ + text::padded(title, TITLE_WIDTH as nat) + "│"@,
        "└─────────────────────────────────────────────────────┘"@,
    ]
}

/// The lines of a section heading.
pub fn section_lines(title: &str) -> (r: Vec<String>)
    ensures
        r@.map_values(|line: String| line@) == section_of(title@),
{
    let title_line = join3("│  ", pad_right(title, TITLE_WIDTH).as_str(), "│");
    let r = vec![
        String::new(),
        String::from_str("┌─────────────────────────────────────────────────────┐"),
        title_line,
        String::from_str("└─────────────────────────────────────────────────────┘"),
    ];
    assert(r@.map_values(|line: String| line@) =~= section_of(title@));
    r
}

/// The line of a result names the node in brackets, and then shows the outcome.
pub proof fn law_line_names_its_node(
    node_id: &str,
    outcome: Result<Response, NodeError>,
    line: String,
)
    requires
        call_ensures(result_line, (node_id, &outcome), line),
    ensures
        line@ == "  ["@ + node_id@ + "]  "@ + shown(protocol::outcome_view(outcome)),
        outcome matches Ok(response) ==> line@ == "  ["@ + node_id@ + "]  "@ + shown(
            Ok(response@),
        ),
        outcome matches Err(error) ==> line@ == "  ["@ + node_id@ + "]  "@ + shown(Err(error@)),
{
    protocol::law_outcome_is_what_it_says(outcome);
}

/// A result is ticked off exactly where all is well: the command was completed,
/// a status came back, or the self-test passed. Errors of the node, errors of
/// the transport and failed self-tests are crossed.
pub proof fn law_results_are_ticked_or_crossed(outcome: Result<ResponseView, NodeErrorView>)
    ensures
        ({
            let well = match outcome {
                Ok(ResponseView::Completed) => true,
                Ok(ResponseView::Status(_)) => true,
                Ok(ResponseView::TestResult(result)) => result.passed,
                Ok(ResponseView::Error(_)) => false,
                Err(_) => false,
            };
            &&& shown(outcome).len() > 0
            &&& well ==> shown(outcome)[0] == '✓'
            &&& !well ==> shown(outcome)[0] == '✗'
        }),
{
    reveal_strlit("✓  Ok");
    reveal_strlit("✓  Status: running=");
    reveal_strlit("✓  Test: PASS — ");
    reveal_strlit("✗  Test: FAIL — ");
    reveal_strlit("✗  Node error: ");
    reveal_strlit("✗  Transport error: ");
}

/// Whether `line` shows a status that says `running`, `uptime_secs` and
/// `message_count`, the two numbers as plain numerals.
pub open spec fn shows_status(
    line: Seq<char>,
    running: bool,
    uptime_secs: nat,
    message_count: nat,
    uptime: Seq<char>,
    messages: Seq<char>,
) -> bool {
    &&& text::plain_numeral(uptime)
    &&& text::number(uptime) == uptime_secs
    &&& text::plain_numeral(messages)
    &&& text::number(messages) == message_count
    &&& line == "✓  Status: running="@ + (if running {
        "true"@
    } else {
        "false"@
    }) + ", uptime="@ + uptime + "s, msgs="@ + messages
}

/// A status is shown with whether the node runs, its uptime in seconds and its
/// message count; a test with its verdict and message; an error of the node with
/// its message; and an error of the transport with its sentence.
pub proof fn law_outcomes_are_shown_in_full(outcome: Result<ResponseView, NodeErrorView>)
    ensures
        match outcome {
            Ok(ResponseView::Completed) => shown(outcome) == "✓  Ok"@,
            Ok(ResponseView::Status(status)) => exists|uptime: Seq<char>, messages: Seq<char>|
                #[trigger] shows_status(
                    shown(outcome),
                    status.running,
                    status.uptime_secs,
                    status.message_count,
                    uptime,
                    messages,
                ),
            Ok(ResponseView::TestResult(result)) => shown(outcome) == if result.passed {
                "✓  Test: PASS — "@ + result.message
            } else {
                "✗  Test: FAIL — "@ + result.message
            },
            Ok(ResponseView::Error(message)) => shown(outcome) == "✗  Node error: "@ + message,
            Err(error) => shown(outcome) == "✗  Transport error: "@ + error.sentence(),
        },
{
    if let Ok(ResponseView::Status(status)) = outcome {
        text::law_number_reads_back(status.uptime_secs);
        text::law_number_reads_back(status.message_count);
        assert(shows_status(
            shown(outcome),
            status.running,
            status.uptime_secs,
            status.message_count,
            text::decimal(status.uptime_secs),
            text::decimal(status.message_count),
        ));
    }
}

/// A broadcast is shown with one line for each node, in the order of the
/// identifiers, and each line shows what is recorded for its node.
pub proof fn law_lines_show_all_results(
    results: Registry<Result<Response, NodeError>>,
    lines: Vec<String>,
)
    requires
        results.well_formed(),
        call_ensures(result_lines, (&results,), lines),
    ensures
        lines@.len() == results.map().dom().len(),
        forall|i: int|
            0 <= i < lines@.len() ==> (#[trigger] lines@[i])@ == "  ["@ + results.ids()[i] + "]  "@
                + shown(protocol::outcome_view(results.map()[results.ids()[i]])),
{
    crate::registry::law_registry_is_its_map(results);
}

/// A section heading is an empty line and a box of three lines around the title.
/// A title that fits fills its line up to the same width as the others.
pub proof fn law_section_is_a_box(title: Seq<char>)
    ensures
        section_of(title).len() == 4,
        section_of(title)[0].len() == 0,
        section_of(title)[1].len() == 55,
        section_of(title)[3].len() == 55,
        section_of(title)[1][0] == '┌' && section_of(title)[1][54] == '┐',
        section_of(title)[3][0] == '└' && section_of(title)[3][54] == '┘',
        forall|i: int|
            1 <= i < 54 ==> #[trigger] section_of(title)[1][i] == '─' && section_of(title)[3][i]
                == '─',
        section_of(title)[2].len() == if title.len() <= 51 {
            55
        } else {
            title.len() + 4
        },
        section_of(title)[2].take(3) == seq!['│', ' ', ' '],
        section_of(title)[2].subrange(3, 3 + title.len() as int) == title,
        forall|i: int|
            3 + title.len() <= i < section_of(title)[2].len() - 1 ==> #[trigger] section_of(
                title,
            )[2][i] == ' ',
        section_of(title)[2].last() == '│',
{
    reveal_strlit("┌─────────────────────────────────────────────────────┐");
    reveal_strlit("└─────────────────────────────────────────────────────┘");
    reveal_strlit("│  ");
    reveal_strlit("│");
    let wide = text::padded(title, TITLE_WIDTH as nat);
    text::law_padding(title, TITLE_WIDTH as nat);
    let line = section_of(title)[2];
    assert(line.take(3) =~= seq!['│', ' ', ' ']);
    assert forall|i: int| 3 <= i < 3 + wide.len() implies #[trigger] line[i] == wide[i - 3] by {}
    assert forall|i: int| 0 <= i < title.len() implies #[trigger] line[i + 3] == title[i] by {
        assert(wide.take(title.len() as int)[i] == title[i]);
        assert(line[i + 3] == wide[i]);
    }
    assert(line.subrange(3, 3 + title.len() as int) =~= title);
}

/// The lines of a heading are those of the box around the title.
pub proof fn law_heading_shows_its_title(title: &str, lines: Vec<String>)
    requires
        call_ensures(section_lines, (title,), lines),
    ensures
        lines@.len() == 4,
        lines@[0]@.len() == 0,
        lines@[1]@ == "┌─────────────────────────────────────────────────────┐"@,
        lines@[2]@.len() >= 55,
        lines@[2]@.subrange(3, 3 + title@.len() as int) == title@,
        lines@[3]@ == "└─────────────────────────────────────────────────────┘"@,
{
    law_section_is_a_box(title@);
    let said = lines@.map_values(|line: String| line@);
    assert(said.len() == lines@.len());
    assert(said[0] == lines@[0]@);
    assert(said[1] == lines@[1]@);
    assert(said[2] == lines@[2]@);
    assert(said[3] == lines@[3]@);
}

} // verus!
