//! What egui reports at the end of a frame: the text that is being edited, and
//! the addresses that the system browser is to open.

use crate::selection::NativeTextSelection;
use vstd::prelude::*;

verus! {

/// An accessibility event of egui.
#[verifier::external_type_specification]
#[verifier::external_body]
pub struct ExOutputEvent(egui::output::OutputEvent);

/// A command that egui leaves to the integration.
#[verifier::external_type_specification]
#[verifier::external_body]
pub struct ExOutputCommand(egui::OutputCommand);

/// What the editor takes from one event about a widget.
#[derive(Debug, PartialEq)]
pub struct WidgetReport {
    /// The text in the widget, where it is one that holds text.
    pub text: Option<String>,
    /// The selected characters, from the first end to the second.
    pub selection: Option<(usize, usize)>,
    /// The event says that the widget gained the focus.
    pub focus_gained: bool,
}

/// What a [`WidgetReport`] says, with its text as a sequence of characters.
#[verifier::ext_equal]
pub struct ReportModel {
    pub text: Option<Seq<char>>,
    pub selection: Option<(usize, usize)>,
    pub focus_gained: bool,
}

impl View for WidgetReport {
    type V = ReportModel;

    open spec fn view(&self) -> ReportModel {
        ReportModel {
            text: match self.text {
                Some(text) => Some(text@),
                None => None,
            },
            selection: self.selection,
            focus_gained: self.focus_gained,
        }
    }
}

/// What an accessibility event of egui says of its widget.
pub uninterp spec fn report_of(event: egui::output::OutputEvent) -> ReportModel;

/// The address that a command asks to open, if that is what it asks.
pub uninterp spec fn address_in(command: egui::OutputCommand) -> Option<Seq<char>>;

/// What the events of a frame say.
pub open spec fn reports_of(events: Seq<egui::output::OutputEvent>) -> Seq<ReportModel> {
    events.map_values(|event: egui::output::OutputEvent| report_of(event))
}

/// What a sequence of reports says.
pub open spec fn report_models(reports: Seq<WidgetReport>) -> Seq<ReportModel> {
    reports.map_values(|report: WidgetReport| report@)
}

/// The text of the last report that has one.
pub open spec fn latest_text(reports: Seq<ReportModel>) -> Option<Seq<char>>
    decreases reports.len(),
{
    if reports.len() == 0 {
        None
    } else if reports.last().text is Some {
        reports.last().text
    } else {
        latest_text(reports.drop_last())
    }
}

/// The selection, in order, of the last report that has both a text and a
/// selection.
pub open spec fn latest_selection(reports: Seq<ReportModel>) -> Option<NativeTextSelection>
    decreases reports.len(),
{
    if reports.len() == 0 {
        None
    } else if reports.last().text is Some && reports.last().selection is Some {
        let ends = reports.last().selection->0;
        Some((NativeTextSelection { start: ends.0, end: ends.1 }).in_order())
    } else {
        latest_selection(reports.drop_last())
    }
}

/// A selection that is reported is in order.
pub proof fn lemma_latest_selection_is_in_order(reports: Seq<ReportModel>)
    ensures
        latest_selection(reports) is Some ==> latest_selection(reports)->0.is_normalized(),
    decreases reports.len(),
{
    if reports.len() > 0 {
        lemma_latest_selection_is_in_order(reports.drop_last());
    }
}

/// Whether a report with a text says that its widget gained the focus.
pub open spec fn gained_focus(reports: Seq<ReportModel>) -> bool {
    exists|i: int|
        0 <= i < reports.len() && (#[trigger] reports[i]).text is Some && reports[i].focus_gained
}

/// The edited text at the end of a frame.
#[derive(Debug, PartialEq)]
pub struct EditedText {
    pub text: String,
    pub selection: Option<NativeTextSelection>,
    pub gained_focus: bool,
}

/// Whether `edited` sums up a frame's reports: nothing where no report has a
/// text, and otherwise the latest text, the latest selection, and whether the
/// focus was gained.
pub open spec fn sums_up(edited: Option<EditedText>, reports: Seq<ReportModel>) -> bool {
    match latest_text(reports) {
        None => edited is None,
        Some(text) => {
            &&& edited is Some
            &&& edited->0.text@ == text
            &&& edited->0.selection == latest_selection(reports)
            &&& edited->0.gained_focus == gained_focus(reports)
        },
    }
}

/// `egui::output::OutputEvent::widget_info`, with the fields of it that the
/// editor uses, and whether the event is of the kind `FocusGained`. The
/// contract names what comes out: it depends on the event alone.
#[verifier::external_body]
fn widget_report(event: &egui::output::OutputEvent) -> (report: WidgetReport)
    ensures
        report@ == report_of(*event),
{
    let info = event.widget_info();
    WidgetReport {
        text: info.current_text_value.clone(),
        selection: info.text_selection.as_ref().map(|range| (*range.start(), *range.end())),
        focus_gained: matches!(event, egui::output::OutputEvent::FocusGained(_)),
    }
}

/// The field `url` of an `egui::OutputCommand::OpenUrl`, and nothing for the
/// other commands. The contract names what comes out: it depends on the command
/// alone.
#[verifier::external_body]
fn requested_address(command: &egui::OutputCommand) -> (address: Option<String>)
    ensures
        address is Some <==> address_in(*command) is Some,
        address is Some ==> address->0@ == address_in(*command)->0,
{
    match command {
        egui::OutputCommand::OpenUrl(open_url) => Some(open_url.url.clone()),
        egui::OutputCommand::CopyText(_) => None,
        egui::OutputCommand::CopyImage(_) => None,
    }
}

/// What the events of a frame say, one report for each event.
pub fn read_reports(events: &Vec<egui::output::OutputEvent>) -> (reports: Vec<WidgetReport>)
    ensures
        report_models(reports@) == reports_of(events@),
{
    let mut reports: Vec<WidgetReport> = Vec::new();
    for i in 0..events.len()
        invariant
            reports@.len() == i,
            forall|j: int| 0 <= j < i ==> (#[trigger] reports@[j])@ == report_of(events@[j]),
    {
        reports.push(widget_report(&events[i]));
    }
    assert(report_models(reports@) =~= reports_of(events@));
    reports
}

/// Sums up a frame's reports on the edited text.
pub fn edited_text(reports: Vec<WidgetReport>) -> (edited: Option<EditedText>)
    ensures
        sums_up(edited, report_models(reports@)),
        edited is Some && edited->0.selection is Some
            ==> edited->0.selection->0.is_normalized(),
{
    let mut text: Option<String> = None;
    let mut selection: Option<NativeTextSelection> = None;
    let mut focus: bool = false;
    let ghost all = report_models(reports@);
    for i in 0..reports.len()
        invariant
            all == report_models(reports@),
            text is Some <==> latest_text(all.take(i as int)) is Some,
            text is Some ==> text->0@ == latest_text(all.take(i as int))->0,
            selection == latest_selection(all.take(i as int)),
            selection is Some ==> selection->0.is_normalized(),
            focus == gained_focus(all.take(i as int)),
    {
        let report = &reports[i];
        proof {
            assert(all.take(i + 1).drop_last() =~= all.take(i as int));
            assert(all.take(i + 1).last() == report@);
            if gained_focus(all.take(i as int)) {
                let k = choose|k: int|
                    0 <= k < i && (#[trigger] all.take(i as int)[k]).text is Some && all.take(
                        i as int,
                    )[k].focus_gained;
                assert(all.take(i + 1)[k] == all.take(i as int)[k]);
            }
            if gained_focus(all.take(i + 1)) && !(report@.text is Some && report@.focus_gained) {
                let k = choose|k: int|
                    0 <= k < i + 1 && (#[trigger] all.take(i + 1)[k]).text is Some && all.take(
                        i + 1,
                    )[k].focus_gained;
                assert(all.take(i as int)[k] == all.take(i + 1)[k]);
            }
            assert(all.take(i + 1)[i as int] == report@);
        }
        if let Some(value) = &report.text {
            text = Some(value.clone());
            if let Some((start, end)) = report.selection {
                selection = Some((NativeTextSelection { start, end }).normalized());
            }
            focus = focus || report.focus_gained;
        }
    }
    proof {
        assert(all.take(reports.len() as int) =~= all);
    }
    match text {
        Some(text) => Some(EditedText { text, selection, gained_focus: focus }),
        None => None,
    }
}

/// The addresses among the requests, in their order.
pub open spec fn addresses(requests: Seq<Option<Seq<char>>>) -> Seq<Seq<char>>
    decreases requests.len(),
{
    if requests.len() == 0 {
        Seq::empty()
    } else {
        match requests.last() {
            Some(address) => addresses(requests.drop_last()).push(address),
            None => addresses(requests.drop_last()),
        }
    }
}

/// What each command of a frame asks to open.
pub open spec fn requests_in(commands: Seq<egui::OutputCommand>) -> Seq<Option<Seq<char>>> {
    commands.map_values(|command: egui::OutputCommand| address_in(command))
}

/// The characters of each text.
pub open spec fn characters(texts: Seq<String>) -> Seq<Seq<char>> {
    texts.map_values(|text: String| text@)
}

/// The characters of each text that is there.
pub open spec fn optional_characters(texts: Seq<Option<String>>) -> Seq<Option<Seq<char>>> {
    texts.map_values(
        |text: Option<String>|
            match text {
                Some(text) => Some(text@),
                None => None,
            },
    )
}

/// Keeps the addresses, in their order.
pub fn keep_addresses(requests: Vec<Option<String>>) -> (urls: Vec<String>)
    ensures
        characters(urls@) == addresses(optional_characters(requests@)),
{
    let mut urls: Vec<String> = Vec::new();
    let ghost all = optional_characters(requests@);
    for i in 0..requests.len()
        invariant
            all == optional_characters(requests@),
            characters(urls@) =~= addresses(all.take(i as int)),
    {
        proof {
            assert(all.take(i + 1).drop_last() =~= all.take(i as int));
        }
        if let Some(url) = &requests[i] {
            urls.push(url.clone());
        }
    }
    proof {
        assert(all.take(requests.len() as int) =~= all);
    }
    urls
}

/// The addresses that the commands of a frame ask the system browser to open,
/// in the order of the commands.
pub fn urls_to_open(commands: &Vec<egui::OutputCommand>) -> (urls: Vec<String>)
    ensures
        characters(urls@) == addresses(requests_in(commands@)),
{
    let mut requests: Vec<Option<String>> = Vec::new();
    for i in 0..commands.len()
        invariant
            requests@.len() == i,
            forall|j: int|
                0 <= j < i ==> match #[trigger] requests@[j] {
                    Some(address) => address_in(commands@[j]) == Some(address@),
                    None => address_in(commands@[j]) is None,
                },
    {
        requests.push(requested_address(&commands[i]));
    }
    assert(optional_characters(requests@) =~= requests_in(commands@));
    keep_addresses(requests)
}

/// The edited text is that of the last report with a text, wherever that stands;
/// there is none exactly where no report has one.
pub proof fn law_latest_text_wins(reports: Seq<ReportModel>, last: int)
    ensures
        0 <= last < reports.len() && reports[last].text is Some && (forall|i: int|
            last < i < reports.len() ==> (#[trigger] reports[i]).text is None) ==> latest_text(
            reports,
        ) == reports[last].text,
        (forall|i: int| 0 <= i < reports.len() ==> (#[trigger] reports[i]).text is None)
            <==> latest_text(reports) is None,
    decreases reports.len(),
{
    if reports.len() > 0 {
        let before = reports.drop_last();
        law_latest_text_wins(before, last);
        assert forall|i: int| 0 <= i < before.len() implies before[i] == reports[i] by {}
        if reports.last().text is Some {
            assert(reports[reports.len() - 1].text is Some);
        } else if latest_text(before) is Some {
            assert(exists|i: int| 0 <= i < before.len() && (#[trigger] before[i]).text is Some);
            let i = choose|i: int| 0 <= i < before.len() && (#[trigger] before[i]).text is Some;
            assert(reports[i].text is Some);
        }
    }
}

/// The selection has the two ends of the last report with a text and a selection,
/// the lesser one first; there is none exactly where no report has both.
pub proof fn law_latest_selection_wins(reports: Seq<ReportModel>, last: int, ends: (usize, usize))
    ensures
        0 <= last < reports.len() && reports[last].text is Some && reports[last].selection == Some(
            ends,
        ) && (forall|i: int|
            last < i < reports.len() ==> (#[trigger] reports[i]).text is None
                || reports[i].selection is None) ==> ({
            let latest = latest_selection(reports);
            &&& latest is Some
            &&& ends.0 <= ends.1 ==> latest->0.start == ends.0 && latest->0.end == ends.1
            &&& ends.0 >= ends.1 ==> latest->0.start == ends.1 && latest->0.end == ends.0
        }),
        (forall|i: int|
            0 <= i < reports.len() ==> (#[trigger] reports[i]).text is None
                || reports[i].selection is None) <==> latest_selection(reports) is None,
    decreases reports.len(),
{
    if reports.len() > 0 {
        let before = reports.drop_last();
        law_latest_selection_wins(before, last, ends);
        assert forall|i: int| 0 <= i < before.len() implies before[i] == reports[i] by {}
        if reports.last().text is Some && reports.last().selection is Some {
            assert(reports[reports.len() - 1].text is Some);
        } else if latest_selection(before) is Some {
            let i = choose|i: int|
                0 <= i < before.len() && (#[trigger] before[i]).text is Some
                    && before[i].selection is Some;
            assert(reports[i].text is Some && reports[i].selection is Some);
        }
    }
}

/// The focus was gained exactly where some report on a text says so.
pub proof fn law_focus_is_gained_with_a_text(reports: Seq<ReportModel>, at: int)
    ensures
        0 <= at < reports.len() && reports[at].text is Some && reports[at].focus_gained
            ==> gained_focus(reports),
        (forall|i: int|
            0 <= i < reports.len() ==> (#[trigger] reports[i]).text is None
                || !reports[i].focus_gained) ==> !gained_focus(reports),
{
}

/// A frame is summed up by the latest text, the latest selection and the gained
/// focus of its reports, and by nothing where it has no text.
pub proof fn law_frame_is_summed_up(edited: Option<EditedText>, reports: Seq<ReportModel>)
    requires
        sums_up(edited, reports),
    ensures
        edited is Some <==> latest_text(reports) is Some,
        edited is Some ==> Some(edited->0.text@) == latest_text(reports),
        edited is Some ==> edited->0.selection == latest_selection(reports),
        edited is Some ==> edited->0.gained_focus == gained_focus(reports),
{
}

/// There is one report for each event, in their order, and what it says is what
/// is kept of it.
pub proof fn law_reports_follow_the_events(
    events: Seq<egui::output::OutputEvent>,
    reports: Seq<WidgetReport>,
    i: int,
)
    ensures
        reports_of(events).len() == events.len(),
        0 <= i < events.len() ==> reports_of(events)[i] == report_of(events[i]),
        report_models(reports).len() == reports.len(),
        0 <= i < reports.len() ==> ({
            let model = report_models(reports)[i];
            &&& model.text is Some <==> reports[i].text is Some
            &&& reports[i].text is Some ==> model.text->0 == reports[i].text->0@
            &&& model.selection == reports[i].selection
            &&& model.focus_gained == reports[i].focus_gained
        }),
{
}

/// The addresses of two lists of requests are those of the one and then those of
/// the other; a request for an address is kept as it is, and any other request
/// is dropped.
pub proof fn law_addresses_keep_their_order(
    a: Seq<Option<Seq<char>>>,
    b: Seq<Option<Seq<char>>>,
    address: Seq<char>,
)
    ensures
        addresses(a + b) == addresses(a) + addresses(b),
        addresses(seq![Some(address)]) == seq![address],
        addresses(seq![None]).len() == 0,
        addresses(Seq::empty()).len() == 0,
    decreases b.len(),
{
    reveal_with_fuel(addresses, 2);
    assert(seq![Some(address)].drop_last() =~= Seq::empty());
    assert(addresses(seq![Some(address)]) =~= seq![address]);
    assert(seq![None::<Seq<char>>].drop_last() =~= Seq::empty());
    if b.len() == 0 {
        assert(a + b =~= a);
        assert(addresses(a) + addresses(b) =~= addresses(a));
    } else {
        law_addresses_keep_their_order(a, b.drop_last(), address);
        assert((a + b).drop_last() =~= a + b.drop_last());
        assert(addresses(a + b) =~= addresses(a) + addresses(b));
    }
}

/// There is one request for each command, and the lists of characters follow the
/// lists of texts.
pub proof fn law_requests_follow_the_commands(
    commands: Seq<egui::OutputCommand>,
    texts: Seq<String>,
    optional: Seq<Option<String>>,
    i: int,
)
    ensures
        requests_in(commands).len() == commands.len(),
        0 <= i < commands.len() ==> requests_in(commands)[i] == address_in(commands[i]),
        characters(texts).len() == texts.len(),
        0 <= i < texts.len() ==> characters(texts)[i] == texts[i]@,
        optional_characters(optional).len() == optional.len(),
        0 <= i < optional.len() ==> match optional[i] {
            Some(text) => optional_characters(optional)[i] == Some(text@),
            None => optional_characters(optional)[i] is None,
        },
{
}

/// What is read of a frame is what the latest report with a text says: its text,
/// and the ends of the latest selection, the lesser one first.
pub proof fn law_read_edit_is_the_latest(
    reports: Vec<WidgetReport>,
    edited: Option<EditedText>,
    last: int,
)
    requires
        call_ensures(edited_text, (reports,), edited),
        0 <= last < reports@.len(),
        reports@[last].text is Some,
        forall|i: int| last < i < reports@.len() ==> (#[trigger] reports@[i]).text is None,
    ensures
        edited is Some,
        edited->0.text@ == reports@[last].text->0@,
        reports@[last].selection matches Some(ends) ==> edited->0.selection matches Some(selection)
            && {
            &&& ends.0 <= ends.1 ==> selection.start == ends.0 && selection.end == ends.1
            &&& ends.0 >= ends.1 ==> selection.start == ends.1 && selection.end == ends.0
        },
        reports@[last].focus_gained ==> edited->0.gained_focus,
{
    let models = report_models(reports@);
    assert forall|i: int| last < i < models.len() implies (#[trigger] models[i]).text is None by {
        assert(reports@[i].text is None);
    }
    assert(models[last].text is Some);
    law_latest_text_wins(models, last);
    if let Some(ends) = reports@[last].selection {
        law_latest_selection_wins(models, last, ends);
    }
}

/// Every address that a command asks for is opened, and nothing else: one command
/// more opens its address last, or none.
pub proof fn law_requested_addresses_are_opened(
    commands: Vec<egui::OutputCommand>,
    urls: Vec<String>,
)
    requires
        call_ensures(urls_to_open, (&commands,), urls),
    ensures
        commands@.len() == 0 ==> urls@.len() == 0,
        commands@.len() > 0 && address_in(commands@.last()) is Some ==> urls@.len() > 0
            && urls@.last()@ == address_in(commands@.last())->0,
        commands@.len() > 0 && address_in(commands@.last()) is None ==> characters(urls@)
            == addresses(requests_in(commands@.drop_last())),
        commands@.len() > 0 && address_in(commands@.last()) is Some ==> characters(
            urls@,
        ).drop_last() == addresses(requests_in(commands@.drop_last())),
{
    let requests = requests_in(commands@);
    assert(characters(urls@).len() == urls@.len());
    if commands@.len() > 0 {
        assert(requests.drop_last() =~= requests_in(commands@.drop_last()));
        assert(requests.last() == address_in(commands@.last()));
        if address_in(commands@.last()) is Some {
            assert(characters(urls@).last() == urls@.last()@);
            assert(characters(urls@).drop_last() =~= addresses(requests.drop_last()));
        }
    }
}

} // verus!
