//! Showing the envelope of one message.
use vstd::prelude::*;

use crate::gmail::envelope::list::{
    address_list_of, entry_flags_of, message_date_of, mime_decoded, or_empty,
};
use crate::gmail::error::{GmailError, GmailErrorView};
use crate::gmail::model::{payload_header, Label, Message};
use crate::gmail::{
    compact_flags_of, custom_labels_of, display_name, has_attachment, resolved_label_id,
    LabelsById,
};
use crate::table::{drawn_table, framed, TableArrangement};
use crate::text::{join_seq, opt_str_view, opt_view, views};

verus! {

/// Arguments of the command that shows one envelope.
#[derive(Debug, Clone)]
pub struct GmailEnvelopeGetCommand {
    /// The id of the message.
    pub id: String,
    /// The folder in which the message is shown, if any.
    pub label: Option<String>,
}

impl GmailEnvelopeGetCommand {
    /// The id of the folder given with `--label`, resolved against `labels`.
    pub fn current_label_id(&self, labels: &[Label]) -> (r: Result<Option<String>, GmailError>)
        ensures
            match self.label {
                None => r is Ok && opt_view(r->Ok_0) is None,
                Some(l) => match resolved_label_id(l@, labels@) {
                    Some(id) => r is Ok && opt_view(r->Ok_0) == Some(id),
                    None => r is Err && r->Err_0@ == GmailErrorView::LabelNotFound(l@),
                },
            },
    {
        match &self.label {
            None => Ok(None),
            Some(l) => match crate::gmail::resolve_label_id(l.as_str(), labels) {
                Some(id) => Ok(Some(id)),
                None => Err(GmailError::LabelNotFound(l.clone())),
            },
        }
    }
}

/// Everything the envelope view shows of a message.
#[derive(Debug, Clone)]
pub struct EnvelopeTableItems {
    pub id: String,
    pub message_id: Option<String>,
    pub in_reply_to: Option<String>,
    pub date: Option<String>,
    pub subject: Option<String>,
    pub from: Vec<String>,
    pub to: Vec<String>,
    pub flags: String,
    pub labels: Vec<String>,
    pub custom_labels: Vec<String>,
    pub has_attachment: bool,
    pub compact_flags: String,
}

/// The display names of some label ids.
pub open spec fn display_names(ids: Seq<Seq<char>>, by_id: Map<Seq<char>, Label>) -> Seq<Seq<char>> {
    Seq::new(ids.len(), |i: int| display_name(ids[i], by_id))
}

/// Whether a message has an attachment.
pub open spec fn message_has_attachment(m: Message) -> bool {
    match m.payload {
        Some(p) => has_attachment(p),
        None => false,
    }
}

fn owned(o: Option<&str>) -> (r: Option<String>)
    ensures
        opt_view(r) == opt_str_view(o),
{
    match o {
        Some(s) => Some(crate::text::string_of(s)),
        None => None,
    }
}

/// The envelope of a message shown in the folder `current_label_id`.
pub fn envelope_table_items(
    message: &Message,
    current_label_id: Option<&str>,
    labels_by_id: &LabelsById,
) -> (r: EnvelopeTableItems)
    ensures
        r.id@ == message.id@,
        opt_view(r.message_id) == payload_header(message.payload, "Message-ID"@),
        opt_view(r.in_reply_to) == payload_header(message.payload, "In-Reply-To"@),
        opt_view(r.date) == message_date_of(*message),
        opt_view(r.subject) == match payload_header(message.payload, "Subject"@) {
            Some(s) => Some(mime_decoded(s)),
            None => None,
        },
        views(r.from@) == address_list_of(
            "From"@,
            payload_header(message.payload, "From"@),
            false,
        ),
        views(r.to@) == address_list_of("From"@, payload_header(message.payload, "To"@), false),
        r.flags@ == entry_flags_of(*message, opt_str_view(current_label_id), labels_by_id@),
        views(r.labels@) == display_names(views(message.label_ids@), labels_by_id@),
        views(r.custom_labels@) == custom_labels_of(
            views(message.label_ids@),
            opt_str_view(current_label_id),
            labels_by_id@,
        ),
        r.has_attachment == message_has_attachment(*message),
        r.compact_flags@ == compact_flags_of(
            views(message.label_ids@),
            message_has_attachment(*message),
        ),
{
    let entry = crate::gmail::envelope::list::map_envelope_entry(
        message,
        current_label_id,
        labels_by_id,
    );
    let payload = message.payload.as_ref();
    let (message_id, in_reply_to, subject, from_header, to_header) = match payload {
        Some(p) => (
            owned(p.header("Message-ID")),
            owned(p.header("In-Reply-To")),
            match p.header("Subject") {
                Some(s) => Some(crate::gmail::envelope::list::decode_mime(s)),
                None => None,
            },
            p.header("From"),
            p.header("To"),
        ),
        None => (None, None, None, None, None),
    };
    let ids = message.label_ids.as_slice();
    let mut labels: Vec<String> = Vec::new();
    let mut i: usize = 0;
    while i < ids.len()
        invariant
            i <= ids@.len(),
            ids@ == message.label_ids@,
            views(labels@) == display_names(views(ids@), labels_by_id@).take(i as int),
        decreases ids.len() - i,
    {
        let name = crate::gmail::label_display_name(ids[i].as_str(), labels_by_id);
        let ghost before = views(labels@);
        labels.push(name);
        assert(views(labels@) =~= before.push(name@));
        assert(views(ids@)[i as int] == ids@[i as int]@);
        assert(views(labels@) =~= display_names(views(ids@), labels_by_id@).take(i + 1));
        i = i + 1;
    }
    assert(display_names(views(ids@), labels_by_id@).take(ids.len() as int) =~= display_names(
        views(ids@),
        labels_by_id@,
    ));
    let attachment = crate::gmail::payload_has_attachment(payload);
    EnvelopeTableItems {
        id: message.id.clone(),
        message_id,
        in_reply_to,
        date: crate::gmail::envelope::list::message_date(message),
        subject,
        from: crate::gmail::envelope::list::format_address_list(from_header),
        to: crate::gmail::envelope::list::format_address_list(to_header),
        flags: entry.flags,
        labels,
        custom_labels: crate::gmail::custom_labels(ids, current_label_id, labels_by_id),
        has_attachment: attachment,
        compact_flags: crate::gmail::compact_flags(ids, attachment),
    }
}

/// The envelope view of one message.
#[derive(Debug, Clone)]
pub struct EnvelopeTable {
    /// The `comfy_table` preset.
    pub preset: String,
    /// The envelope shown.
    pub envelope: EnvelopeTableItems,
}

/// The rows of the envelope view: one header per row, with its value.
pub open spec fn envelope_rows(e: EnvelopeTableItems) -> Seq<Seq<Seq<char>>> {
    seq![
        seq!["ID"@, e.id@],
        seq!["Message ID"@, or_empty(opt_view(e.message_id))],
        seq!["In Reply To"@, or_empty(opt_view(e.in_reply_to))],
        seq!["Date"@, or_empty(opt_view(e.date))],
        seq!["Subject"@, or_empty(opt_view(e.subject))],
        seq!["From"@, join_seq(views(e.from@), ", "@)],
        seq!["To"@, join_seq(views(e.to@), ", "@)],
        seq!["Flags"@, e.flags@],
        seq!["Labels"@, join_seq(views(e.labels@), ", "@)],
        seq!["Custom Labels"@, join_seq(views(e.custom_labels@), ", "@)],
        seq!["Has Attachment"@, if e.has_attachment { "yes"@ } else { ""@ }],
    ]
}

/// The envelope view of a message shows, in its `Labels` row, the display
/// names of all the labels of the message, in order, joined by `, `; the
/// `Custom Labels` row shows the custom labels only. Each row has two cells,
/// the header then the value.
pub proof fn lemma_label_rows(
    message: Message,
    current: Option<Seq<char>>,
    by_id: Map<Seq<char>, Label>,
    e: EnvelopeTableItems,
)
    requires
        views(e.labels@) == display_names(views(message.label_ids@), by_id),
        views(e.custom_labels@) == custom_labels_of(views(message.label_ids@), current, by_id),
    ensures
        envelope_rows(e).len() == 11,
        forall|i: int| 0 <= i < 11 ==> (#[trigger] envelope_rows(e)[i]).len() == 2,
        envelope_rows(e)[8][0] == "Labels"@,
        envelope_rows(e)[8][1] == join_seq(
            Seq::new(message.label_ids@.len(), |i: int| display_name(message.label_ids@[i]@, by_id)),
            ", "@,
        ),
        envelope_rows(e)[9][0] == "Custom Labels"@,
        envelope_rows(e)[9][1] == join_seq(
            custom_labels_of(views(message.label_ids@), current, by_id),
            ", "@,
        ),
{
    assert(display_names(views(message.label_ids@), by_id) =~= Seq::new(
        message.label_ids@.len(),
        |i: int| display_name(message.label_ids@[i]@, by_id),
    ));
}

/// A row made of a header and a value.
fn row(header: &str, value: String) -> (r: Vec<String>)
    ensures
        views(r@) == seq![header@, value@],
{
    let r = vec![crate::text::string_of(header), value];
    assert(views(r@) =~= seq![header@, value@]);
    r
}

/// A row whose value may be missing, shown empty then.
fn add_optional_row(header: &str, value: Option<&str>) -> (r: Vec<String>)
    ensures
        views(r@) == seq![header@, or_empty(opt_str_view(value))],
{
    match value {
        Some(v) => row(header, crate::text::string_of(v)),
        None => row(header, String::new()),
    }
}

fn as_deref(o: &Option<String>) -> (r: Option<&str>)
    ensures
        opt_str_view(r) == opt_view(*o),
{
    match o {
        Some(s) => Some(s.as_str()),
        None => None,
    }
}

impl EnvelopeTable {
    /// The rows of the view (see `envelope_rows`).
    pub fn rows(&self) -> (r: Vec<Vec<String>>)
        ensures
            crate::table::rows_views(r@) == envelope_rows(self.envelope),
    {
        let e = &self.envelope;
        let r = vec![
            row("ID", e.id.clone()),
            add_optional_row("Message ID", as_deref(&e.message_id)),
            add_optional_row("In Reply To", as_deref(&e.in_reply_to)),
            add_optional_row("Date", as_deref(&e.date)),
            add_optional_row("Subject", as_deref(&e.subject)),
            row("From", crate::text::join(e.from.as_slice(), ", ")),
            row("To", crate::text::join(e.to.as_slice(), ", ")),
            row("Flags", e.flags.clone()),
            row("Labels", crate::text::join(e.labels.as_slice(), ", ")),
            row("Custom Labels", crate::text::join(e.custom_labels.as_slice(), ", ")),
            row(
                "Has Attachment",
                crate::text::string_of(
                    if e.has_attachment {
                        "yes"
                    } else {
                        ""
                    },
                ),
            ),
        ];
        assert(crate::table::rows_views(r@) =~= envelope_rows(self.envelope));
        r
    }

    /// The view as printed: a blank line, then a two-column table.
    pub fn render(&self) -> (r: String)
        ensures
            r@ == framed(
                drawn_table(
                    self.preset@,
                    TableArrangement::Disabled,
                    seq!["HEADER"@, "VALUE"@],
                    envelope_rows(self.envelope),
                    usize::MAX,
                    None,
                ),
            ),
    {
        let header = row("HEADER", crate::text::string_of("VALUE"));
        let rows = self.rows();
        let table = crate::table::render_table(
            self.preset.as_str(),
            &TableArrangement::Disabled,
            header.as_slice(),
            rows.as_slice(),
            usize::MAX,
        );
        crate::table::frame(table)
    }
}

} // verus!
