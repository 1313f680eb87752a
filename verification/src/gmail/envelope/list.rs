//! Listing envelopes: one table line per message of a label, and the
//! header decoding that the envelope views share.
use mail_parser::{Address, HeaderValue};
use vstd::prelude::*;

use crate::gmail::error::{GmailError, GmailErrorView};
use crate::gmail::model::{header_value, payload_header, Label, Message};
use crate::gmail::{
    compact_flags_of, custom_labels_of, has_attachment, internal_date_of, resolved_label_id,
    LabelsById,
};
use crate::table::{drawn_table, framed, TableArrangement};
use crate::text::{is_blank_seq, join_seq, opt_str_view, opt_view, trim_seq, views};

verus! {

/// What RFC 2047 decoding (`rfc2047_decoder`, recovering over-long encoded
/// words) makes of a header value; `None` where the decoder fails.
pub uninterp spec fn rfc2047_decoded(value: Seq<char>) -> Option<Seq<char>>;

/// Calls `rfc2047_decoder::Decoder::new()` with
/// `too_long_encoded_word_strategy(RecoverStrategy::Decode)` and `decode` on
/// the bytes of `value`. The contract claims only that the result is a
/// function of `value`, named `rfc2047_decoded`.
#[verifier::external_body]
fn rfc2047_decode(value: &str) -> (r: Option<String>)
    ensures
        opt_view(r) == rfc2047_decoded(value@),
{
    rfc2047_decoder::Decoder::new().too_long_encoded_word_strategy(
        rfc2047_decoder::RecoverStrategy::Decode,
    ).decode(value.as_bytes()).ok()
}

/// A header value decoded as RFC 2047, or kept as it is when that fails.
pub open spec fn mime_decoded(value: Seq<char>) -> Seq<char> {
    match rfc2047_decoded(value) {
        Some(d) => d,
        None => value,
    }
}

/// The decoded text when decoding succeeded, else the value itself.
pub fn decoded_or_value(value: &str, decoded: Option<String>) -> (r: String)
    ensures
        r@ == match opt_view(decoded) {
            Some(d) => d,
            None => value@,
        },
{
    match decoded {
        Some(d) => d,
        None => crate::text::string_of(value),
    }
}

/// Decodes RFC 2047 encoded words in a header value; a value that does not
/// decode is returned as it is.
pub fn decode_mime(value: &str) -> (r: String)
    ensures
        r@ == mime_decoded(value@),
{
    decoded_or_value(value, rfc2047_decode(value))
}

/// A mailbox of an address header.
#[derive(Debug, Clone)]
pub struct Addr {
    /// The display name.
    pub name: Option<String>,
    /// The e-mail address.
    pub address: Option<String>,
}

/// The mathematical value of an [`Addr`].
pub struct AddrView {
    pub name: Option<Seq<char>>,
    pub address: Option<Seq<char>>,
}

impl View for Addr {
    type V = AddrView;

    open spec fn view(&self) -> AddrView {
        AddrView { name: opt_view(self.name), address: opt_view(self.address) }
    }
}

/// The mailboxes of the first header of a header block.
#[derive(Debug, Clone)]
pub enum AddressHeader {
    /// The block does not parse, has no header, or its first header holds
    /// no address.
    Absent,
    /// A list of mailboxes.
    List(Vec<Addr>),
    /// Groups of mailboxes.
    Group(Vec<Vec<Addr>>),
}

/// The mathematical value of an [`AddressHeader`].
pub enum AddressHeaderView {
    Absent,
    List(Seq<AddrView>),
    Group(Seq<Seq<AddrView>>),
}

/// The views of some mailboxes.
pub open spec fn addrs_view(addrs: Seq<Addr>) -> Seq<AddrView> {
    addrs.map_values(|a: Addr| a@)
}

impl View for AddressHeader {
    type V = AddressHeaderView;

    open spec fn view(&self) -> AddressHeaderView {
        match self {
            AddressHeader::Absent => AddressHeaderView::Absent,
            AddressHeader::List(l) => AddressHeaderView::List(addrs_view(l@)),
            AddressHeader::Group(g) => AddressHeaderView::Group(
                g@.map_values(|v: Vec<Addr>| addrs_view(v@)),
            ),
        }
    }
}

/// What `mail_parser` reads from the first header of a header block.
pub uninterp spec fn parsed_address_header(raw: Seq<char>) -> AddressHeaderView;

/// Calls `mail_parser::MessageParser::new().parse_headers` on the bytes of
/// `raw` and converts the value of the first header when it is an address
/// list or a group list. The contract claims only that the result is a
/// function of `raw`, named `parsed_address_header`.
#[verifier::external_body]
fn parse_address_header(raw: &str) -> (r: AddressHeader)
    ensures
        r@ == parsed_address_header(raw@),
{
    let addr = |a: &mail_parser::Addr| Addr {
        name: a.name.as_deref().map(String::from),
        address: a.address.as_deref().map(String::from),
    };
    let message = mail_parser::MessageParser::new().parse_headers(raw.as_bytes());
    match message.as_ref().and_then(|m| m.headers().first()).map(|h| h.value()) {
        Some(HeaderValue::Address(Address::List(l))) => AddressHeader::List(l.iter().map(addr).collect()),
        Some(HeaderValue::Address(Address::Group(g))) => AddressHeader::Group(
            g.iter().map(|g| g.addresses.iter().map(addr).collect()).collect(),
        ),
        _ => AddressHeader::Absent,
    }
}

/// The address of a mailbox, trimmed; empty when there is none.
pub open spec fn addr_email(a: AddrView) -> Seq<char> {
    match a.address {
        Some(x) => trim_seq(x),
        None => Seq::empty(),
    }
}

/// The decoded display name of a mailbox, unless it is missing or blank.
pub open spec fn addr_name(a: AddrView) -> Option<Seq<char>> {
    match a.name {
        Some(n) => if is_blank_seq(mime_decoded(n)) {
            None
        } else {
            Some(mime_decoded(n))
        },
        None => None,
    }
}

/// A mailbox as shown: the name alone when `short`, else `name <email>`;
/// the bare address when there is no name.
pub open spec fn addr_text(a: AddrView, short: bool) -> Seq<char> {
    match addr_name(a) {
        Some(name) => if short || addr_email(a).len() == 0 {
            name
        } else {
            name + " <"@ + addr_email(a) + ">"@
        },
        None => addr_email(a),
    }
}

/// The non-empty texts of `addrs`, in order.
pub open spec fn addrs_text(addrs: Seq<AddrView>, short: bool) -> Seq<Seq<char>>
    decreases addrs.len(),
{
    if addrs.len() == 0 {
        Seq::empty()
    } else {
        let rest = addrs_text(addrs.drop_last(), short);
        let t = addr_text(addrs.last(), short);
        if t.len() == 0 {
            rest
        } else {
            rest.push(t)
        }
    }
}

/// The mailboxes of all groups, in order.
pub open spec fn flatten_groups(groups: Seq<Seq<AddrView>>) -> Seq<AddrView>
    decreases groups.len(),
{
    if groups.len() == 0 {
        Seq::empty()
    } else {
        flatten_groups(groups.drop_last()) + groups.last()
    }
}

/// The mailboxes of a parsed header, as shown; the decoded value itself
/// when the header holds no mailbox.
pub open spec fn address_texts(value: Seq<char>, header: AddressHeaderView, short: bool) -> Seq<
    Seq<char>,
> {
    match header {
        AddressHeaderView::List(addrs) => addrs_text(addrs, short),
        AddressHeaderView::Group(groups) => addrs_text(flatten_groups(groups), short),
        AddressHeaderView::Absent => seq![mime_decoded(value)],
    }
}

/// The header line that `parse_address_list` hands to the parser.
pub open spec fn header_block(header_name: Seq<char>, value: Seq<char>) -> Seq<char> {
    header_name + ": "@ + value + "\r\n\r\n"@
}

/// The mailboxes of an address header value, as shown.
pub open spec fn address_list_of(header_name: Seq<char>, value: Option<Seq<char>>, short: bool) -> Seq<
    Seq<char>,
> {
    match value {
        Some(v) => address_texts(v, parsed_address_header(header_block(header_name, v)), short),
        None => Seq::empty(),
    }
}

/// A mailbox as shown: see `addr_text`.
pub fn format_addr(addr: &Addr, short: bool) -> (r: String)
    ensures
        r@ == addr_text(addr@, short),
{
    let email = match &addr.address {
        Some(x) => crate::text::trim(x.as_str()),
        None => String::new(),
    };
    let name = match &addr.name {
        Some(n) => {
            let d = decode_mime(n.as_str());
            if crate::text::is_blank(d.as_str()) {
                None
            } else {
                Some(d)
            }
        },
        None => None,
    };
    match name {
        Some(n) => {
            if short || email.as_str().is_empty() {
                n
            } else {
                let mut r = n;
                r.append(" <");
                r.append(email.as_str());
                r.append(">");
                r
            }
        },
        None => email,
    }
}

fn push_addrs_text(out: &mut Vec<String>, addrs: &Vec<Addr>, short: bool)
    ensures
        views(final(out)@) == views(old(out)@) + addrs_text(addrs_view(addrs@), short),
{
    let ghost start = views(out@);
    let ghost avs = addrs_view(addrs@);
    let mut i: usize = 0;
    assert(avs.take(0) =~= Seq::<AddrView>::empty());
    assert(views(out@) =~= start + addrs_text(avs.take(0), short));
    while i < addrs.len()
        invariant
            i <= addrs@.len(),
            avs == addrs_view(addrs@),
            views(out@) == start + addrs_text(avs.take(i as int), short),
        decreases addrs.len() - i,
    {
        assert(avs.take(i + 1).drop_last() == avs.take(i as int));
        assert(avs.take(i + 1).last() == addrs@[i as int]@);
        let t = format_addr(&addrs[i], short);
        if !t.as_str().is_empty() {
            let ghost before = views(out@);
            out.push(t);
            assert(views(out@) =~= before.push(t@));
        }
        i = i + 1;
    }
    assert(avs.take(addrs.len() as int) == avs);
}

/// The mailboxes of an already parsed header, as shown: the texts of its
/// mailboxes that are not empty, or, when the header holds none, the
/// decoded value.
pub fn address_list_from(value: &str, header: AddressHeader, short: bool) -> (r: Vec<String>)
    ensures
        views(r@) == address_texts(value@, header@, short),
{
    let mut out: Vec<String> = Vec::new();
    assert(views(out@) =~= Seq::<Seq<char>>::empty());
    match header {
        AddressHeader::List(addrs) => {
            push_addrs_text(&mut out, &addrs, short);
            assert(views(out@) =~= addrs_text(addrs_view(addrs@), short));
        },
        AddressHeader::Group(groups) => {
            let ghost gv = groups@.map_values(|v: Vec<Addr>| addrs_view(v@));
            let mut i: usize = 0;
            assert(gv.take(0) =~= Seq::<Seq<AddrView>>::empty());
            while i < groups.len()
                invariant
                    i <= groups@.len(),
                    gv == groups@.map_values(|v: Vec<Addr>| addrs_view(v@)),
                    views(out@) == addrs_text(flatten_groups(gv.take(i as int)), short),
                decreases groups.len() - i,
            {
                assert(gv.take(i + 1).drop_last() == gv.take(i as int));
                assert(gv.take(i + 1).last() == addrs_view(groups@[i as int]@));
                proof {
                    lemma_addrs_text_append(
                        flatten_groups(gv.take(i as int)),
                        addrs_view(groups@[i as int]@),
                        short,
                    );
                }
                push_addrs_text(&mut out, &groups[i], short);
                i = i + 1;
            }
            assert(gv.take(groups.len() as int) == gv);
        },
        AddressHeader::Absent => {
            out.push(decode_mime(value));
            assert(views(out@) =~= seq![mime_decoded(value@)]);
        },
    }
    out
}

/// The texts of two runs of mailboxes are the texts of the first then
/// those of the second.
proof fn lemma_addrs_text_append(a: Seq<AddrView>, b: Seq<AddrView>, short: bool)
    ensures
        addrs_text(a + b, short) == addrs_text(a, short) + addrs_text(b, short),
    decreases b.len(),
{
    if b.len() == 0 {
        assert(a + b =~= a);
        assert(addrs_text(b, short) =~= Seq::<Seq<char>>::empty());
        assert(addrs_text(a, short) + addrs_text(b, short) =~= addrs_text(a, short));
    } else {
        assert((a + b).drop_last() =~= a + b.drop_last());
        assert((a + b).last() == b.last());
        lemma_addrs_text_append(a, b.drop_last(), short);
        let t = addr_text(b.last(), short);
        if t.len() != 0 {
            assert(addrs_text(a, short) + addrs_text(b, short) =~= (addrs_text(a, short)
                + addrs_text(b.drop_last(), short)).push(t));
        }
    }
}

/// `header_name + ": " + value + "\r\n\r\n"`.
fn build_header_block(header_name: &str, value: &str) -> (r: String)
    ensures
        r@ == header_block(header_name@, value@),
{
    let mut raw = crate::text::string_of(header_name);
    raw.append(": ");
    raw.append(value);
    raw.append("\r\n\r\n");
    raw
}

/// The mailboxes of an address header value, as shown (see `addr_text`).
fn parse_address_list(header_name: &str, value: Option<&str>, short: bool) -> (r: Vec<String>)
    ensures
        views(r@) == address_list_of(header_name@, opt_str_view(value), short),
{
    match value {
        None => {
            let r: Vec<String> = Vec::new();
            assert(views(r@) =~= Seq::<Seq<char>>::empty());
            r
        },
        Some(v) => {
            let raw = build_header_block(header_name, v);
            let header = parse_address_header(raw.as_str());
            address_list_from(v, header, short)
        },
    }
}

/// The names (or bare addresses) of a `From` header, joined by `", "`.
pub fn format_address_list_short(value: Option<&str>) -> (r: String)
    ensures
        r@ == join_seq(address_list_of("From"@, opt_str_view(value), true), ", "@),
{
    let list = parse_address_list("From", value, true);
    crate::text::join(list.as_slice(), ", ")
}

/// The mailboxes of an address header, each as `name <email>`.
pub fn format_address_list(value: Option<&str>) -> (r: Vec<String>)
    ensures
        views(r@) == address_list_of("From"@, opt_str_view(value), false),
{
    parse_address_list("From", value, false)
}

/// The date of a message: its `Date` header unless blank, else its internal
/// date rendered in RFC 3339.
pub open spec fn message_date_of(message: Message) -> Option<Seq<char>> {
    let header = payload_header(message.payload, "Date"@);
    if header is Some && !is_blank_seq(header->0) {
        header
    } else {
        match message.internal_date {
            Some(v) => internal_date_of(v@),
            None => None,
        }
    }
}

/// The date of a message (see `message_date_of`).
pub fn message_date(message: &Message) -> (r: Option<String>)
    ensures
        opt_view(r) == message_date_of(*message),
{
    let header = match &message.payload {
        Some(p) => p.header("Date"),
        None => None,
    };
    if let Some(d) = header {
        if !crate::text::is_blank(d) {
            return Some(crate::text::string_of(d));
        }
    }
    match &message.internal_date {
        Some(v) => crate::gmail::parse_internal_date(v.as_str()),
        None => None,
    }
}

/// A line of the envelope listing.
#[derive(Debug, Clone)]
pub struct EnvelopeTableEntry {
    pub id: String,
    pub flags: String,
    pub date: String,
    pub from: String,
    pub subject: String,
}

/// The text of an optional header, empty when absent.
pub open spec fn or_empty(o: Option<Seq<char>>) -> Seq<char> {
    match o {
        Some(s) => s,
        None => Seq::empty(),
    }
}

/// The flags column of a listed message: its compact flags, then `+` when
/// it carries custom labels.
pub open spec fn entry_flags_of(
    message: Message,
    current: Option<Seq<char>>,
    by_id: Map<Seq<char>, Label>,
) -> Seq<char> {
    let attachment = match message.payload {
        Some(p) => has_attachment(p),
        None => false,
    };
    let flags = compact_flags_of(views(message.label_ids@), attachment);
    if custom_labels_of(views(message.label_ids@), current, by_id).len() > 0 {
        flags.push('+')
    } else {
        flags
    }
}

/// The decoded subject of a message, empty when there is none.
pub open spec fn subject_of(message: Message) -> Seq<char> {
    match payload_header(message.payload, "Subject"@) {
        Some(s) => mime_decoded(s),
        None => Seq::empty(),
    }
}

/// The envelope line of a message shown in the folder `current_label_id`.
pub fn map_envelope_entry(
    message: &Message,
    current_label_id: Option<&str>,
    labels_by_id: &LabelsById,
) -> (r: EnvelopeTableEntry)
    ensures
        r.id@ == message.id@,
        r.flags@ == entry_flags_of(*message, opt_str_view(current_label_id), labels_by_id@),
        r.date@ == or_empty(message_date_of(*message)),
        r.from@ == join_seq(
            address_list_of("From"@, payload_header(message.payload, "From"@), true),
            ", "@,
        ),
        r.subject@ == subject_of(*message),
{
    let payload = message.payload.as_ref();
    let mut flags = crate::gmail::compact_flags(
        message.label_ids.as_slice(),
        crate::gmail::payload_has_attachment(payload),
    );
    let custom = crate::gmail::custom_labels(
        message.label_ids.as_slice(),
        current_label_id,
        labels_by_id,
    );
    if custom.len() > 0 {
        flags.push('+');
    }
    let date = match message_date(message) {
        Some(d) => d,
        None => String::new(),
    };
    let from_header = match payload {
        Some(p) => p.header("From"),
        None => None,
    };
    let subject = match payload {
        Some(p) => match p.header("Subject") {
            Some(s) => decode_mime(s),
            None => String::new(),
        },
        None => String::new(),
    };
    EnvelopeTableEntry {
        id: message.id.clone(),
        flags,
        date,
        from: format_address_list_short(from_header),
        subject,
    }
}

/// Whether `e` is the envelope line of `message` shown in the folder
/// `current` (see `map_envelope_entry`).
pub open spec fn is_envelope_entry(
    e: EnvelopeTableEntry,
    message: Message,
    current: Option<Seq<char>>,
    by_id: Map<Seq<char>, Label>,
) -> bool {
    &&& e.id@ == message.id@
    &&& e.flags@ == entry_flags_of(message, current, by_id)
    &&& e.date@ == or_empty(message_date_of(message))
    &&& e.from@ == join_seq(
        address_list_of("From"@, payload_header(message.payload, "From"@), true),
        ", "@,
    )
    &&& e.subject@ == subject_of(message)
}

/// The envelope lines of the listed messages, one per message, in order.
pub fn listing_entries(
    messages: &[Message],
    current_label_id: Option<&str>,
    labels_by_id: &LabelsById,
) -> (r: Vec<EnvelopeTableEntry>)
    ensures
        r@.len() == messages@.len(),
        forall|i: int|
            0 <= i < r@.len() ==> is_envelope_entry(
                #[trigger] r@[i],
                messages@[i],
                opt_str_view(current_label_id),
                labels_by_id@,
            ),
{
    let mut r: Vec<EnvelopeTableEntry> = Vec::new();
    let mut i: usize = 0;
    while i < messages.len()
        invariant
            i <= messages@.len(),
            r@.len() == i,
            forall|k: int|
                0 <= k < i ==> is_envelope_entry(
                    #[trigger] r@[k],
                    messages@[k],
                    opt_str_view(current_label_id),
                    labels_by_id@,
                ),
        decreases messages.len() - i,
    {
        let e = map_envelope_entry(&messages[i], current_label_id, labels_by_id);
        r.push(e);
        i = i + 1;
    }
    r
}

/// Arguments of the command that lists envelopes.
#[derive(Debug, Clone)]
pub struct GmailEnvelopeListCommand {
    /// A Gmail search query.
    pub query: Option<String>,
    /// The label to list; `INBOX` when absent.
    pub label: Option<String>,
    /// The number of envelopes per page.
    pub page_size: u32,
    /// The page to show, counted from 1.
    pub page: u32,
}

/// What a listing asks of the Gmail API once its arguments are checked.
#[derive(Debug)]
pub struct ListPlan {
    /// The id of the label whose messages are listed.
    pub label_id: String,
    /// The page to fetch, counted from 1.
    pub target_page: u32,
}

/// The label that a listing shows: the one given, or `INBOX`.
pub open spec fn listed_label(label: Option<Seq<char>>) -> Seq<char> {
    match label {
        Some(l) => l,
        None => "INBOX"@,
    }
}

impl GmailEnvelopeListCommand {
    /// Refuses a page size of zero; this is checked before anything is
    /// fetched.
    pub fn check_page_size(&self) -> (r: Result<(), GmailError>)
        ensures
            r is Ok <==> self.page_size != 0,
            r matches Err(e) ==> e@ == GmailErrorView::PageSizeZero,
    {
        if self.page_size == 0 {
            Err(GmailError::PageSizeZero)
        } else {
            Ok(())
        }
    }

    /// Checks the arguments against the labels of the account: the page
    /// size must be positive and the label must resolve; page 0 means page 1.
    pub fn plan(&self, labels: &[Label]) -> (r: Result<ListPlan, GmailError>)
        ensures
            match r {
                Ok(p) => {
                    &&& self.page_size != 0
                    &&& resolved_label_id(listed_label(opt_view(self.label)), labels@) == Some(
                        p.label_id@,
                    )
                    &&& p.target_page == if self.page < 1 {
                        1
                    } else {
                        self.page
                    }
                },
                Err(e) => if self.page_size == 0 {
                    e@ == GmailErrorView::PageSizeZero
                } else {
                    &&& resolved_label_id(listed_label(opt_view(self.label)), labels@) is None
                    &&& e@ == GmailErrorView::LabelNotFound(listed_label(opt_view(self.label)))
                },
            },
    {
        if self.page_size == 0 {
            return Err(GmailError::PageSizeZero);
        }
        let label = match &self.label {
            Some(l) => l.as_str(),
            None => "INBOX",
        };
        match crate::gmail::resolve_label_id(label, labels) {
            Some(label_id) => Ok(ListPlan {
                label_id,
                target_page: if self.page < 1 {
                    1
                } else {
                    self.page
                },
            }),
            None => Err(GmailError::LabelNotFound(crate::text::string_of(label))),
        }
    }
}

/// The listing request of one page, as the messages endpoint takes it.
#[derive(Debug, Clone)]
pub struct MessagesListRequest {
    /// The Gmail search query.
    pub query: Option<String>,
    /// The labels that the listed messages all carry.
    pub label_ids: Vec<String>,
    /// The number of messages per page.
    pub max_results: Option<u32>,
    /// The token of the page, absent for the first one.
    pub page_token: Option<String>,
    /// Whether spam and trash are listed too.
    pub include_spam_trash: bool,
}

impl GmailEnvelopeListCommand {
    /// The request of the page with `page_token` of the listing planned as
    /// `plan`: the query of the command, the planned label only, the page
    /// size of the command, spam and trash left out.
    pub fn list_request(&self, plan: &ListPlan, page_token: Option<String>) -> (r:
        MessagesListRequest)
        ensures
            opt_view(r.query) == opt_view(self.query),
            views(r.label_ids@) == seq![plan.label_id@],
            r.max_results == Some(self.page_size),
            opt_view(r.page_token) == opt_view(page_token),
            !r.include_spam_trash,
    {
        let query = match &self.query {
            Some(q) => Some(q.clone()),
            None => None,
        };
        let label_ids = vec![plan.label_id.clone()];
        assert(views(label_ids@) =~= seq![plan.label_id@]);
        MessagesListRequest {
            query,
            label_ids,
            max_results: Some(self.page_size),
            page_token,
            include_spam_trash: false,
        }
    }
}

/// The headers that the envelope views read.
pub open spec fn metadata_headers() -> Seq<Seq<char>> {
    seq!["Message-ID"@, "In-Reply-To"@, "Date"@, "From"@, "To"@, "Subject"@]
}

/// The headers to ask for when fetching messages for the envelope views
/// (see `metadata_headers`).
pub fn envelope_metadata_headers() -> (r: Vec<String>)
    ensures
        views(r@) == metadata_headers(),
{
    let r = vec![
        column("Message-ID"),
        column("In-Reply-To"),
        column("Date"),
        column("From"),
        column("To"),
        column("Subject"),
    ];
    assert(views(r@) =~= metadata_headers());
    r
}

/// What to do after a page of the message listing came back.
#[derive(Debug)]
pub enum PageStep {
    /// This page is the one asked for.
    Done,
    /// Fetch the next page, with this number and token.
    Next { page: u32, token: String },
    /// The listing ends before the page asked for.
    OutOfBounds(GmailError),
}

/// Decides, after page `current_page` came back with `next_page_token`,
/// whether it is the page `target_page`, whether to fetch the next one, or
/// whether the listing ends too early.
pub fn next_page_step(current_page: u32, target_page: u32, next_page_token: Option<String>) -> (r:
    PageStep)
    ensures
        current_page >= target_page ==> r is Done,
        current_page < target_page ==> match r {
            PageStep::Next { page, token } => next_page_token == Some(token) && page
                == current_page + 1,
            PageStep::OutOfBounds(e) => next_page_token is None && e@
                == GmailErrorView::PageOutOfBounds(target_page),
            PageStep::Done => false,
        },
{
    if current_page >= target_page {
        return PageStep::Done;
    }
    match next_page_token {
        Some(token) => PageStep::Next { page: current_page + 1, token },
        None => PageStep::OutOfBounds(GmailError::PageOutOfBounds(target_page)),
    }
}

/// The envelope listing as a table.
#[derive(Debug, Clone)]
pub struct EnvelopesTable {
    /// The `comfy_table` preset.
    pub preset: String,
    /// How the table fits the terminal.
    pub arrangement: TableArrangement,
    /// One line per message.
    pub envelopes: Vec<EnvelopeTableEntry>,
}

/// The cells of the listing: id, flags, subject, sender, date.
pub open spec fn entry_cells(e: EnvelopeTableEntry) -> Seq<Seq<char>> {
    seq![e.id@, e.flags@, e.subject@, e.from@, e.date@]
}

/// The header of the listing.
pub open spec fn envelopes_header() -> Seq<Seq<char>> {
    seq!["ID"@, "FLAGS"@, "SUBJECT"@, "FROM"@, "DATE"@]
}

/// The rows of the listing, one per envelope.
pub open spec fn envelopes_rows(envelopes: Seq<EnvelopeTableEntry>) -> Seq<Seq<Seq<char>>> {
    envelopes.map_values(|e: EnvelopeTableEntry| entry_cells(e))
}

fn column(s: &str) -> (r: String)
    ensures
        r@ == s@,
{
    crate::text::string_of(s)
}

impl EnvelopesTable {
    /// The header of the listing.
    pub fn header() -> (r: Vec<String>)
        ensures
            views(r@) == seq!["ID"@, "FLAGS"@, "SUBJECT"@, "FROM"@, "DATE"@],
    {
        let r = vec![column("ID"), column("FLAGS"), column("SUBJECT"), column("FROM"), column("DATE")];
        assert(views(r@) =~= seq!["ID"@, "FLAGS"@, "SUBJECT"@, "FROM"@, "DATE"@]);
        r
    }

    /// The rows of the listing, one per envelope.
    pub fn rows(&self) -> (r: Vec<Vec<String>>)
        ensures
            r@.len() == self.envelopes@.len(),
            forall|i: int|
                0 <= i < r@.len() ==> views(#[trigger] r@[i]@) == entry_cells(self.envelopes@[i]),
    {
        let mut rows: Vec<Vec<String>> = Vec::new();
        let mut i: usize = 0;
        while i < self.envelopes.len()
            invariant
                i <= self.envelopes@.len(),
                rows@.len() == i,
                forall|k: int|
                    0 <= k < i ==> views(#[trigger] rows@[k]@) == entry_cells(self.envelopes@[k]),
            decreases self.envelopes.len() - i,
        {
            let e = &self.envelopes[i];
            let row = vec![e.id.clone(), e.flags.clone(), e.subject.clone(), e.from.clone(), e.date.clone()];
            assert(views(row@) =~= entry_cells(*e));
            rows.push(row);
            i = i + 1;
        }
        rows
    }

    /// The listing as printed: a blank line, then the table with one line
    /// per envelope.
    pub fn render(&self) -> (r: String)
        ensures
            exists|width: Option<u16>|
                r@ == framed(
                    #[trigger] drawn_table(
                        self.preset@,
                        self.arrangement,
                        envelopes_header(),
                        envelopes_rows(self.envelopes@),
                        1,
                        width,
                    ),
                ),
            self.arrangement is Disabled ==> r@ == framed(
                drawn_table(
                    self.preset@,
                    self.arrangement,
                    envelopes_header(),
                    envelopes_rows(self.envelopes@),
                    1,
                    None,
                ),
            ),
    {
        let header = Self::header();
        let rows = self.rows();
        assert(crate::table::rows_views(rows@) =~= envelopes_rows(self.envelopes@));
        let table = crate::table::render_table(
            self.preset.as_str(),
            &self.arrangement,
            header.as_slice(),
            rows.as_slice(),
            1,
        );
        let ghost width = choose|width: Option<u16>|
            table@ == drawn_table(
                self.preset@,
                self.arrangement,
                envelopes_header(),
                envelopes_rows(self.envelopes@),
                1,
                width,
            );
        let r = crate::table::frame(table);
        assert(r@ == framed(
            drawn_table(
                self.preset@,
                self.arrangement,
                envelopes_header(),
                envelopes_rows(self.envelopes@),
                1,
                width,
            ),
        ));
        r
    }
}

} // verus!
