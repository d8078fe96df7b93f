//! The page that lists the daemon's open connections with their speeds.

use crate::clash_api::{Connection, ConnectionItem, Metadata};
use crate::my_event::{
    commands_view, draw_command, menu_view, status, status_command, AppEvent, Command,
    CommandView, EventView, KeyCode, KeyEvent, Menu, Request, RequestView,
};
use crate::page::delta_engine::{
    baseline_of, connection_delta, total_delta, Counters, DeltaEngine, DeltaView,
};
use crate::page::log_page::{closed_text, retry_text};
use crate::page::stream_worker::{MsgView, WsMsg};
use crate::page::widget::filter_widget::FilterInnerWidget;
use crate::page::widget::table_widget::{row_of, rows_of, TableFrame, TableView, TableWidget};
use crate::text::{decimal_digits, join2, push_decimal};
use vstd::prelude::*;
use vstd::string::StringExecFns;

verus! {

/// A point in time: whole seconds since the start of 1970 in UTC, and the
/// nanoseconds into that second.
#[derive(Clone, Copy, Debug, PartialEq, Eq, Structural)]
pub struct Instant {
    pub seconds: i64,
    pub nanos: u32,
}

/// The text that `humansize::format_size` gives for a number of bytes with
/// the crate's `BINARY` options.
pub uninterp spec fn size_text(bytes: u64) -> Seq<char>;

/// Trusted: `humansize::format_size(bytes, BINARY)`. The text depends on
/// the number alone; the contract gives it the name `size_text` and says no
/// more of it.
#[verifier::external_body]
fn format_bytes(bytes: u64) -> (text: String)
    ensures
        text@ == size_text(bytes),
{
    humansize::format_size(bytes, humansize::BINARY)
}

/// What parsing a text as a `chrono::DateTime<Utc>` gives: the instant, or
/// the text of chrono's parse error.
pub uninterp spec fn parsed_instant(text: Seq<char>) -> Result<Instant, Seq<char>>;

/// Trusted: `str::parse::<chrono::DateTime<chrono::Utc>>`, the instant read
/// off with `timestamp` and `timestamp_subsec_nanos`, the error turned into
/// its message. Both depend on the text alone; the contract gives the
/// outcome the name `parsed_instant` and says no more of it.
#[verifier::external_body]
fn parse_instant(text: &str) -> (r: Result<Instant, String>)
    ensures
        match r {
            Ok(instant) => parsed_instant(text@) == Ok::<Instant, Seq<char>>(instant),
            Err(message) => parsed_instant(text@) == Err::<Instant, Seq<char>>(message@),
        },
{
    match text.parse::<chrono::DateTime<chrono::Utc>>() {
        Ok(t) => Ok(Instant { seconds: t.timestamp(), nanos: t.timestamp_subsec_nanos() }),
        Err(e) => Err(e.to_string()),
    }
}

/// Trusted: `chrono::Utc::now`, read off with `timestamp` and
/// `timestamp_subsec_nanos`. Nothing is claimed of the instant: it is what
/// the machine's clock says. chrono refuses a clock set before 1970.
#[verifier::external_body]
pub(crate) fn current_instant() -> Instant {
    let t = chrono::Utc::now();
    Instant { seconds: t.timestamp(), nanos: t.timestamp_subsec_nanos() }
}

/// Nanoseconds from `start` to `now`.
pub open spec fn elapsed_nanos(now: Instant, start: Instant) -> int {
    (now.seconds - start.seconds) * 1_000_000_000 + (now.nanos - start.nanos)
}

/// Whole seconds from `start` to `now`, rounded toward zero and kept within
/// the range of `i64`.
pub open spec fn elapsed_seconds(now: Instant, start: Instant) -> int {
    let nanos = elapsed_nanos(now, start);
    let seconds = if nanos >= 0 {
        nanos / 1_000_000_000
    } else {
        -((-nanos) / 1_000_000_000)
    };
    if seconds > i64::MAX {
        i64::MAX as int
    } else if seconds < i64::MIN {
        i64::MIN as int
    } else {
        seconds
    }
}

/// A count followed by its unit.
pub open spec fn counted(count: int, unit: Seq<char>) -> Seq<char> {
    decimal_digits(count as nat) + unit
}

/// A count followed by its unit, and nothing for a count of zero.
pub open spec fn counted_if_any(count: int, unit: Seq<char>) -> Seq<char> {
    if count == 0 {
        Seq::empty()
    } else {
        counted(count, unit)
    }
}

/// How long ago something started, in words: under ten seconds "a few
/// seconds ago"; else the largest unit that is not zero among days, hours,
/// minutes and seconds, followed by the next smaller unit unless that is
/// zero.
pub open spec fn duration_text(seconds: int) -> Seq<char> {
    if seconds < 10 {
        "几秒前"@
    } else {
        let days = seconds / 86400;
        let hours = (seconds / 3600) % 24;
        let minutes = (seconds / 60) % 60;
        let secs = seconds % 60;
        if days > 0 {
            counted(days, "天"@) + counted_if_any(hours, "小时"@)
        } else if hours > 0 {
            counted(hours, "小时"@) + counted_if_any(minutes, "分"@)
        } else if minutes > 0 {
            counted(minutes, "分"@) + counted_if_any(secs, "秒"@)
        } else {
            counted(secs, "秒"@)
        }
    }
}

/// The first of `texts` that is not empty, and the empty text if there is
/// none.
pub open spec fn first_non_empty(texts: Seq<Seq<char>>) -> Seq<char>
    decreases texts.len(),
{
    if texts.len() == 0 {
        Seq::empty()
    } else if texts[0].len() > 0 {
        texts[0]
    } else {
        first_non_empty(texts.drop_first())
    }
}

/// Whole seconds from `start` to `now`, rounded toward zero.
pub fn seconds_between(now: Instant, start: Instant) -> (seconds: i64)
    ensures
        seconds as int == elapsed_seconds(now, start),
{
    let nanos: i128 = (now.seconds as i128 - start.seconds as i128) * 1_000_000_000 + (
    now.nanos as i128 - start.nanos as i128);
    let seconds: i128 = if nanos >= 0 {
        nanos / 1_000_000_000
    } else {
        -((-nanos) / 1_000_000_000)
    };
    if seconds > i64::MAX as i128 {
        i64::MAX
    } else if seconds < i64::MIN as i128 {
        i64::MIN
    } else {
        seconds as i64
    }
}

/// Appends `count` and `unit` to `out`.
fn push_counted(out: &mut String, count: i64, unit: &str)
    requires
        count >= 0,
    ensures
        final(out)@ == old(out)@ + counted(count as int, unit@),
{
    push_decimal(out, count as u64);
    out.append(unit);
}

/// Appends `count` and `unit` to `out` unless `count` is zero.
fn push_counted_if_any(out: &mut String, count: i64, unit: &str)
    requires
        count >= 0,
    ensures
        final(out)@ == old(out)@ + counted_if_any(count as int, unit@),
{
    if count != 0 {
        push_counted(out, count, unit);
    }
}

/// How long ago something started, in words.
pub fn format_duration(seconds: i64) -> (text: String)
    ensures
        text@ == duration_text(seconds as int),
{
    if seconds < 10 {
        return String::from_str("几秒前");
    }
    let days: i64 = seconds / 86400;
    let hours: i64 = (seconds / 3600) % 24;
    let minutes: i64 = (seconds / 60) % 60;
    let secs: i64 = seconds % 60;
    let mut text = String::new();
    if days > 0 {
        push_counted(&mut text, days, "天");
        push_counted_if_any(&mut text, hours, "小时");
    } else if hours > 0 {
        push_counted(&mut text, hours, "小时");
        push_counted_if_any(&mut text, minutes, "分");
    } else if minutes > 0 {
        push_counted(&mut text, minutes, "分");
        push_counted_if_any(&mut text, secs, "秒");
    } else {
        push_counted(&mut text, secs, "秒");
    }
    text
}

/// The texts of a list of string slices.
pub open spec fn slices_of(v: Seq<&str>) -> Seq<Seq<char>> {
    Seq::new(v.len(), |i: int| v[i]@)
}

/// The first of `texts` that is not empty, and the empty text if there is
/// none.
pub fn get_not_empty<'a>(texts: &Vec<&'a str>) -> (first: &'a str)
    ensures
        first@ == first_non_empty(slices_of(texts@)),
{
    let mut i: usize = 0;
    proof {
        assert(slices_of(texts@).skip(0) =~= slices_of(texts@));
    }
    while i < texts.len()
        invariant
            i <= texts.len(),
            first_non_empty(slices_of(texts@)) == first_non_empty(slices_of(texts@).skip(i as int)),
        decreases texts.len() - i,
    {
        if !texts[i].is_empty() {
            return texts[i];
        }
        proof {
            assert(slices_of(texts@).skip(i as int).drop_first() =~= slices_of(texts@).skip(
                i + 1,
            ));
        }
        i += 1;
    }
    proof {
        reveal_strlit("");
    }
    ""
}

/// The status line made of four texts: download speed, upload speed, total
/// download and total upload.
pub open spec fn speed_line_of(
    download_speed: Seq<char>,
    upload_speed: Seq<char>,
    download_total: Seq<char>,
    upload_total: Seq<char>,
) -> Seq<char> {
    "下载速度:"@ + download_speed + "|上传速度:"@ + upload_speed + "|总下载:"@ + download_total
        + "|总上传:"@ + upload_total
}

/// The status line of a snapshot: the speeds and the totals, each as a
/// size.
pub open spec fn speed_line(speed: Counters, totals: Counters) -> Seq<char> {
    speed_line_of(
        size_text(speed.0),
        size_text(speed.1),
        size_text(totals.0),
        size_text(totals.1),
    )
}

/// How long ago a connection with this start started, in words; empty if
/// the start could not be read.
pub open spec fn age_of(start: Result<Instant, Seq<char>>, now: Instant) -> Seq<char> {
    match start {
        Ok(at) => duration_text(elapsed_seconds(now, at)),
        Err(_) => Seq::empty(),
    }
}

/// How long ago a connection started, in words; empty if its start time
/// cannot be read.
pub open spec fn age_text(start: Seq<char>, now: Instant) -> Seq<char> {
    age_of(parsed_instant(start), now)
}

/// A start that was read or the reason why it could not be read, with the
/// reason as a character sequence.
pub open spec fn start_view(start: Result<Instant, String>) -> Result<Instant, Seq<char>> {
    match start {
        Ok(at) => Ok(at),
        Err(reason) => Err(reason@),
    }
}

/// Where a connection goes: the sniffed host, else the host, else the
/// address, and the port.
pub open spec fn target_text(metadata: Metadata) -> Seq<char> {
    first_non_empty(seq![metadata.sniff_host@, metadata.host@, metadata.destination_ip@]) + ":"@
        + metadata.destination_port@
}

/// The last proxy of a connection's chain, and nothing for an empty chain.
pub open spec fn last_chain(chains: Seq<String>) -> Seq<char> {
    if chains.len() == 0 {
        Seq::empty()
    } else {
        chains.last()@
    }
}

/// The inbound a connection came through and its network, in brackets.
pub open spec fn inbound_text(metadata: Metadata) -> Seq<char> {
    metadata.inbound_name@ + "("@ + metadata.network@ + ")"@
}

/// The rule that matched: its payload, or its name if it has no payload.
pub open spec fn rule_text(item: ConnectionItem) -> Seq<char> {
    if item.rule_payload@.len() == 0 {
        item.rule@
    } else {
        item.rule_payload@
    }
}

/// The row of one connection.
pub open spec fn connection_row(
    item: ConnectionItem,
    baseline: Map<Seq<char>, Counters>,
    now: Instant,
) -> Seq<Seq<char>> {
    connection_row_with(item, baseline, age_text(item.start@, now))
}

/// The rows of a snapshot's connections, in the snapshot's order.
pub open spec fn connection_rows(
    connections: Seq<ConnectionItem>,
    baseline: Map<Seq<char>, Counters>,
    now: Instant,
) -> Seq<Seq<Seq<char>>> {
    Seq::new(connections.len(), |i: int| connection_row(connections[i], baseline, now))
}

/// The status text for a start time that cannot be read.
pub open spec fn start_failure(start: Seq<char>, message: Seq<char>) -> Seq<char> {
    "格式化时间错误: "@ + start + " "@ + message
}

/// One status command for each of the first `upto` connections whose start
/// time cannot be read, in order.
pub open spec fn start_failures(connections: Seq<ConnectionItem>, upto: int) -> Seq<CommandView>
    decreases upto,
{
    if upto <= 0 {
        Seq::empty()
    } else {
        let rest = start_failures(connections, upto - 1);
        match parsed_instant(connections[upto - 1].start@) {
            Ok(_) => rest,
            Err(message) => rest.push(
                status_command(start_failure(connections[upto - 1].start@, message)),
            ),
        }
    }
}

/// The state of the connection page.
pub struct ConnectionPageView {
    pub table: TableView,
    pub engine: DeltaView,
    /// Whether the page has asked for its stream and not yet for its end.
    pub streaming: bool,
    /// Whether arriving snapshots are ignored.
    pub pause: bool,
}

/// The titles of the connection table.
pub open spec fn connection_titles() -> Seq<Seq<char>> {
    seq![
        "源主机"@,
        "主机"@,
        "链路"@,
        "下载速度"@,
        "上传速度"@,
        "下载量"@,
        "上传量"@,
        "类型"@,
        "连接时间"@,
        "规则"@,
    ]
}

/// Whether a character key leaves the connection page: `p` for the page it
/// was opened from, `l` for the log, in either case of letters.
pub open spec fn leaves(c: char) -> bool {
    c == 'p' || c == 'P' || c == 'l' || c == 'L'
}

/// The status text after pausing or resuming.
pub open spec fn pause_text(pause: bool) -> Seq<char> {
    if pause {
        "暂停"@
    } else {
        "恢复"@
    }
}

impl ConnectionPageView {
    /// The page before any snapshot: an empty table under the connection
    /// titles, an engine without previous snapshot, no stream, not paused.
    pub open spec fn initial() -> ConnectionPageView {
        ConnectionPageView {
            table: TableView::empty(connection_titles()),
            engine: DeltaView { baseline: Map::empty(), totals: None },
            streaming: false,
            pause: false,
        }
    }

    /// The page after a snapshot arrived at `now`: unchanged while paused;
    /// else the table shows the snapshot's rows and the snapshot is the
    /// engine's previous one.
    pub open spec fn after_data(self, snapshot: Connection, now: Instant) -> ConnectionPageView {
        if self.pause {
            self
        } else {
            ConnectionPageView {
                table: self.table.with_rows(
                    connection_rows(snapshot.connections@, self.engine.baseline, now),
                ),
                engine: DeltaView {
                    baseline: baseline_of(snapshot.connections@),
                    totals: Some((snapshot.download_total, snapshot.upload_total)),
                },
                ..self
            }
        }
    }

    /// The commands of a snapshot: nothing while paused; else the status
    /// line with the speeds, then one status for every start time that
    /// cannot be read.
    pub open spec fn data_commands(self, snapshot: Connection) -> Seq<CommandView> {
        if self.pause {
            Seq::empty()
        } else {
            let totals = (snapshot.download_total, snapshot.upload_total);
            seq![status_command(speed_line(total_delta(self.engine.totals, totals), totals))]
                + start_failures(snapshot.connections@, snapshot.connections@.len() as int)
        }
    }

    /// The page after it was left: without rows, without stream, and with
    /// an engine that has forgotten the previous snapshot, so that the first
    /// snapshot after the next entering shows no speed.
    pub open spec fn left(self) -> ConnectionPageView {
        ConnectionPageView {
            table: self.table.with_rows(Seq::empty()),
            engine: DeltaView { baseline: Map::empty(), totals: None },
            streaming: false,
            ..self
        }
    }

    /// The commands of leaving: the status line says ready, and the stream's
    /// worker is stopped.
    pub open spec fn leave_commands() -> Seq<CommandView> {
        seq![status_command("就绪"@), CommandView::Ask(RequestView::StopConnectionStream)]
    }

    /// The page after it was entered: not paused, with its stream asked
    /// for.
    pub open spec fn entered(self) -> ConnectionPageView {
        ConnectionPageView { streaming: true, pause: false, ..self }
    }

    /// The commands of entering: a worker that the page still has is
    /// stopped, and a new one is started.
    pub open spec fn enter_commands(self) -> Seq<CommandView> {
        if self.streaming {
            seq![
                CommandView::Ask(RequestView::StopConnectionStream),
                CommandView::Ask(RequestView::StartConnectionStream),
            ]
        } else {
            seq![CommandView::Ask(RequestView::StartConnectionStream)]
        }
    }

    /// The page after a key press.
    pub open spec fn after_key(self, key: KeyEvent) -> ConnectionPageView {
        match key.code {
            KeyCode::Up => ConnectionPageView { table: self.table.up(), ..self },
            KeyCode::Down => ConnectionPageView { table: self.table.down(), ..self },
            KeyCode::Char(c) => if leaves(c) {
                self.left()
            } else if c == ' ' {
                ConnectionPageView { pause: !self.pause, ..self }
            } else {
                self
            },
            _ => self,
        }
    }

    /// The commands of a key press.
    pub open spec fn key_commands(self, key: KeyEvent) -> Seq<CommandView> {
        match key.code {
            KeyCode::Up => seq![draw_command()],
            KeyCode::Down => seq![draw_command()],
            KeyCode::Char(c) => if c == 'p' || c == 'P' {
                seq![CommandView::Emit(EventView::ShowPrevious)] + Self::leave_commands()
            } else if c == 'l' || c == 'L' {
                seq![CommandView::Emit(EventView::ShowLogPage)] + Self::leave_commands()
            } else if c == ' ' {
                seq![status_command(pause_text(!self.pause))]
            } else if c == 'q' || c == 'Q' {
                seq![CommandView::Emit(EventView::Quit)]
            } else {
                Seq::empty()
            },
            KeyCode::Esc => seq![CommandView::Emit(EventView::Quit)],
            _ => Seq::empty(),
        }
    }
}

/// The text that reports a snapshot that could not be decoded.
pub open spec fn decode_failure(reason: Seq<char>) -> Seq<char> {
    "处理连接数据出错: "@ + reason
}

/// A decoded snapshot, or the reason why decoding failed, with the reason
/// as a character sequence.
pub open spec fn decoded_view(decoded: Result<Connection, String>) -> Result<
    Connection,
    Seq<char>,
> {
    match decoded {
        Ok(snapshot) => Ok(snapshot),
        Err(reason) => Err(reason@),
    }
}

/// The event that the connection page's stream worker submits for what it
/// forwards: a snapshot as it is; a failure, a close or a snapshot that
/// could not be decoded as a status.
pub open spec fn connection_stream_event(message: MsgView<Result<Connection, String>>)
    -> EventView {
    match message {
        MsgView::ConnectFail(reason) => EventView::Status(retry_text(reason)),
        MsgView::Closed => EventView::Status(closed_text()),
        MsgView::Message(decoded) => match decoded_view(decoded) {
            Ok(snapshot) => EventView::Connection(snapshot),
            Err(reason) => EventView::Status(decode_failure(reason)),
        },
    }
}

/// The connection page: the table of connections, the engine that knows
/// the previous snapshot, whether the stream was asked for, and whether
/// arriving snapshots are ignored.
pub struct ConnectionPage {
    table_widget: TableWidget,
    engine: DeltaEngine,
    streaming: bool,
    pause: bool,
}

impl View for ConnectionPage {
    type V = ConnectionPageView;

    closed spec fn view(&self) -> ConnectionPageView {
        ConnectionPageView {
            table: self.table_widget@,
            engine: self.engine@,
            streaming: self.streaming,
            pause: self.pause,
        }
    }
}

/// The status line made of the texts of the speeds and the totals.
pub fn speed_status(
    download_speed: &str,
    upload_speed: &str,
    download_total: &str,
    upload_total: &str,
) -> (line: String)
    ensures
        line@ == speed_line_of(download_speed@, upload_speed@, download_total@, upload_total@),
{
    let mut line = String::from_str("下载速度:");
    line.append(download_speed);
    line.append("|上传速度:");
    line.append(upload_speed);
    line.append("|总下载:");
    line.append(download_total);
    line.append("|总上传:");
    line.append(upload_total);
    line
}

/// How long ago a connection started, in words, given what reading its
/// start time came to; empty if the start could not be read.
pub fn age_cell(start: &Result<Instant, String>, now: Instant) -> (text: String)
    ensures
        text@ == age_of(start_view(*start), now),
{
    match start {
        Ok(at) => format_duration(seconds_between(now, *at)),
        Err(_) => String::new(),
    }
}

/// The status text for a start time that could not be read, given the
/// reason.
pub fn start_failure_text(start: &str, message: &str) -> (text: String)
    ensures
        text@ == start_failure(start@, message@),
{
    let mut text = String::from_str("格式化时间错误: ");
    text.append(start);
    text.append(" ");
    text.append(message);
    text
}

/// The cells of one connection's row, given the texts of its speeds, its
/// counters and its age.
pub fn connection_cells(
    item: &ConnectionItem,
    download_speed: String,
    upload_speed: String,
    downloaded: String,
    uploaded: String,
    age: String,
) -> (row: Vec<String>)
    ensures
        row_of(row) == connection_cells_of(
            *item,
            download_speed@,
            upload_speed@,
            downloaded@,
            uploaded@,
            age@,
        ),
{
    let mut hosts: Vec<&str> = Vec::new();
    hosts.push(item.metadata.sniff_host.as_str());
    hosts.push(item.metadata.host.as_str());
    hosts.push(item.metadata.destination_ip.as_str());
    proof {
        assert(slices_of(hosts@) =~= seq![
            item.metadata.sniff_host@,
            item.metadata.host@,
            item.metadata.destination_ip@,
        ]);
    }
    let mut target = String::from_str(get_not_empty(&hosts));
    target.append(":");
    target.append(item.metadata.destination_port.as_str());
    let chain: String = if item.chains.len() == 0 {
        String::new()
    } else {
        item.chains[item.chains.len() - 1].clone()
    };
    let mut inbound = item.metadata.inbound_name.clone();
    inbound.append("(");
    inbound.append(item.metadata.network.as_str());
    inbound.append(")");
    let rule: String = if item.rule_payload.as_str().is_empty() {
        item.rule.clone()
    } else {
        item.rule_payload.clone()
    };
    let mut row: Vec<String> = Vec::new();
    row.push(item.metadata.source_ip.clone());
    row.push(target);
    row.push(chain);
    row.push(download_speed);
    row.push(upload_speed);
    row.push(downloaded);
    row.push(uploaded);
    row.push(inbound);
    row.push(age);
    row.push(rule);
    row
}

impl ConnectionPage {
    /// The page before any snapshot: an empty table under the connection
    /// titles, no stream, not paused.
    pub fn new() -> (page: Self)
        ensures
            page@ == ConnectionPageView::initial(),
    {
        let mut header: Vec<&'static str> = Vec::new();
        header.push("源主机");
        header.push("主机");
        header.push("链路");
        header.push("下载速度");
        header.push("上传速度");
        header.push("下载量");
        header.push("上传量");
        header.push("类型");
        header.push("连接时间");
        header.push("规则");
        proof {
            assert(crate::page::widget::table_widget::titles_of(header) =~= connection_titles());
        }
        ConnectionPage {
            table_widget: TableWidget::new(header),
            engine: DeltaEngine::new(),
            streaming: false,
            pause: false,
        }
    }

    /// The event to submit for what the page's stream worker forwards.
    pub fn stream_event(message: WsMsg<Result<Connection, String>>) -> (event: AppEvent)
        ensures
            event@ == connection_stream_event(message@),
    {
        match message {
            WsMsg::ConnectFail(reason) => AppEvent::Status(
                join2("连接失败，重试: ", reason.as_str()),
            ),
            WsMsg::Closed => AppEvent::Status(String::from_str("连接已断开，重连")),
            WsMsg::Message(decoded) => match decoded {
                Ok(snapshot) => AppEvent::Connection(snapshot),
                Err(reason) => AppEvent::Status(join2("处理连接数据出错: ", reason.as_str())),
            },
        }
    }

    /// Leaves the page: the rows and the previous snapshot go, the stream's
    /// worker is stopped, and the status line says ready.
    pub fn inactive(&mut self) -> (commands: Vec<Command>)
        ensures
            final(self)@ == old(self)@.left(),
            commands_view(commands@) == ConnectionPageView::leave_commands(),
    {
        let mut commands: Vec<Command> = Vec::new();
        commands.push(status(String::from_str("就绪")));
        commands.push(Command::Ask(Request::StopConnectionStream));
        self.streaming = false;
        self.engine.reset();
        let none: Vec<Vec<String>> = Vec::new();
        proof {
            assert(rows_of(none) =~= Seq::empty());
        }
        self.table_widget.set_data(none);
        commands
    }

    /// Sets the filter of the table.
    pub fn set_filter(&mut self, filter: &str)
        ensures
            final(self)@ == (ConnectionPageView {
                table: old(self)@.table.with_filter(filter@),
                ..old(self)@
            }),
    {
        self.table_widget.set_filter(filter);
    }

    /// Enters the page: arriving snapshots count again, and the stream's
    /// worker is asked for. A worker that the page still has is stopped
    /// first, so that the stream never has two.
    pub fn active(&mut self) -> (commands: Vec<Command>)
        ensures
            final(self)@ == old(self)@.entered(),
            commands_view(commands@) == old(self)@.enter_commands(),
    {
        let mut commands: Vec<Command> = Vec::new();
        if self.streaming {
            commands.push(Command::Ask(Request::StopConnectionStream));
        }
        commands.push(Command::Ask(Request::StartConnectionStream));
        self.pause = false;
        self.streaming = true;
        commands
    }

    /// Handles a key press: the arrows move the cursor, `p` leaves for the
    /// page from which the stream pages were opened, `l` for the log page,
    /// the space bar pauses and resumes, `q` and escape quit.
    pub fn on_key(&mut self, key_event: KeyEvent) -> (commands: Vec<Command>)
        ensures
            final(self)@ == old(self)@.after_key(key_event),
            commands_view(commands@) == old(self)@.key_commands(key_event),
    {
        let mut commands: Vec<Command> = Vec::new();
        match key_event.code {
            KeyCode::Up => {
                self.table_widget.select_up();
                commands.push(Command::Emit(AppEvent::Draw));
            },
            KeyCode::Down => {
                self.table_widget.select_down();
                commands.push(Command::Emit(AppEvent::Draw));
            },
            KeyCode::Char(c) => {
                if c == 'p' || c == 'P' || c == 'l' || c == 'L' {
                    if c == 'p' || c == 'P' {
                        commands.push(Command::Emit(AppEvent::ShowPrevious));
                    } else {
                        commands.push(Command::Emit(AppEvent::ShowLogPage));
                    }
                    let mut rest = self.inactive();
                    commands.append(&mut rest);
                } else if c == ' ' {
                    self.pause = !self.pause;
                    let text: &str = if self.pause {
                        "暂停"
                    } else {
                        "恢复"
                    };
                    commands.push(status(String::from_str(text)));
                } else if c == 'q' || c == 'Q' {
                    commands.push(Command::Emit(AppEvent::Quit));
                }
            },
            KeyCode::Esc => {
                commands.push(Command::Emit(AppEvent::Quit));
            },
            _ => {},
        }
        commands
    }

    /// The row of one connection.
    fn row_for(&self, item: &ConnectionItem, age: String) -> (row: Vec<String>)
        ensures
            row_of(row) == connection_row_with(*item, self@.engine.baseline, age@),
    {
        let speed = self.engine.connection_speed(item.id.as_str(), item.download, item.upload);
        connection_cells(
            item,
            format_bytes(speed.0),
            format_bytes(speed.1),
            format_bytes(item.download),
            format_bytes(item.upload),
            age,
        )
    }

    /// Takes in a snapshot that arrived at `now`. While paused nothing
    /// happens. Else every connection gets a row with its speed against the
    /// previous snapshot; the status line gets the speed of the totals; a
    /// start time that cannot be read gives a status of its own and an empty
    /// cell; and the snapshot becomes the previous one.
    pub fn on_data_at(&mut self, connection: Connection, now: Instant) -> (commands: Vec<Command>)
        ensures
            final(self)@ == old(self)@.after_data(connection, now),
            commands_view(commands@) == old(self)@.data_commands(connection),
    {
        let mut commands: Vec<Command> = Vec::new();
        if self.pause {
            return commands;
        }
        let speed = self.engine.total_speed(connection.download_total, connection.upload_total);
        let line = speed_status(
            format_bytes(speed.0).as_str(),
            format_bytes(speed.1).as_str(),
            format_bytes(connection.download_total).as_str(),
            format_bytes(connection.upload_total).as_str(),
        );
        commands.push(status(line));
        let ghost head = commands@;
        let ghost wanted = connection_rows(connection.connections@, self@.engine.baseline, now);
        let mut data: Vec<Vec<String>> = Vec::new();
        let mut i: usize = 0;
        while i < connection.connections.len()
            invariant
                i <= connection.connections.len(),
                *self == *old(self),
                wanted == connection_rows(connection.connections@, self@.engine.baseline, now),
                rows_of(data) == wanted.take(i as int),
                commands_view(commands@) == commands_view(head) + start_failures(
                    connection.connections@,
                    i as int,
                ),
            decreases connection.connections.len() - i,
        {
            let item: &ConnectionItem = &connection.connections[i];
            let ghost sent = commands@;
            let ghost rows = data;
            let start = parse_instant(item.start.as_str());
            let age: String = age_cell(&start, now);
            match start {
                Ok(_) => {},
                Err(message) => {
                    commands.push(
                        status(start_failure_text(item.start.as_str(), message.as_str())),
                    );
                    proof {
                        assert(commands_view(commands@) =~= commands_view(sent).push(
                            status_command(start_failure(item.start@, message@)),
                        ));
                    }
                },
            }
            let row = self.row_for(item, age);
            data.push(row);
            proof {
                assert(rows_of(data) =~= rows_of(rows).push(row_of(row)));
            }
            i += 1;
        }
        proof {
            assert(wanted.take(wanted.len() as int) =~= wanted);
        }
        self.engine.replace(&connection);
        self.table_widget.set_data(data);
        commands
    }

    /// Takes in a snapshot that arrives now, by the machine's clock.
    pub fn on_data(&mut self, connection: Connection) -> (commands: Vec<Command>)
        ensures
            exists|now: Instant|
                final(self)@ == old(self)@.after_data(connection, now),
            commands_view(commands@) == old(self)@.data_commands(connection),
    {
        let now = current_instant();
        self.on_data_at(connection, now)
    }

    /// The menu of the page.
    pub fn get_menu() -> (menu: Menu)
        ensures
            menu_view(menu) == connection_menu(),
    {
        let mut menu: Menu = Vec::new();
        menu.push(("<Space>", "暂停"));
        menu.push(("/", "搜索"));
        menu.push(("P", "代理"));
        menu.push(("L", "日志"));
        menu.push(("Q", "退出"));
        menu
    }

    /// The table of the page.
    pub fn table(&self) -> (table: &TableWidget)
        ensures
            table@ == self@.table,
    {
        &self.table_widget
    }

    /// Settles the table's cursor and works out what drawing the table
    /// needs.
    pub fn show(&mut self) -> (frame: crate::page::widget::table_widget::TableFrame)
        ensures
            final(self)@ == (ConnectionPageView { table: old(self)@.table.drawn(), ..old(self)@ }),
            old(self)@.table.frames(frame),
    {
        self.table_widget.render()
    }
}

/// The menu of the connection page.
pub open spec fn connection_menu() -> Seq<(Seq<char>, Seq<char>)> {
    seq![
        ("<Space>"@, "暂停"@),
        ("/"@, "搜索"@),
        ("P"@, "代理"@),
        ("L"@, "日志"@),
        ("Q"@, "退出"@),
    ]
}

/// The cells of one connection's row, given the texts of its speeds, its
/// counters and its age.
pub open spec fn connection_cells_of(
    item: ConnectionItem,
    download_speed: Seq<char>,
    upload_speed: Seq<char>,
    downloaded: Seq<char>,
    uploaded: Seq<char>,
    age: Seq<char>,
) -> Seq<Seq<char>> {
    seq![
        item.metadata.source_ip@,
        target_text(item.metadata),
        last_chain(item.chains@),
        download_speed,
        upload_speed,
        downloaded,
        uploaded,
        inbound_text(item.metadata),
        age,
        rule_text(item),
    ]
}

/// The row of one connection whose age cell holds `age`: its speeds
/// against the baseline and its counters, each as a size.
pub open spec fn connection_row_with(
    item: ConnectionItem,
    baseline: Map<Seq<char>, Counters>,
    age: Seq<char>,
) -> Seq<Seq<char>> {
    let speed = connection_delta(baseline, item.id@, (item.download, item.upload));
    connection_cells_of(
        item,
        size_text(speed.0),
        size_text(speed.1),
        size_text(item.download),
        size_text(item.upload),
        age,
    )
}

impl FilterInnerWidget for ConnectionPage {
    type Data = Connection;

    type Frame = TableFrame;

    open spec fn ready(v: ConnectionPageView) -> bool {
        true
    }

    open spec fn filter_set(v: ConnectionPageView, filter: Seq<char>) -> ConnectionPageView {
        ConnectionPageView { table: v.table.with_filter(filter), ..v }
    }

    open spec fn key_pressed(v: ConnectionPageView, key: KeyEvent) -> ConnectionPageView {
        v.after_key(key)
    }

    open spec fn key_commands(v: ConnectionPageView, key: KeyEvent) -> Seq<CommandView> {
        v.key_commands(key)
    }

    open spec fn menu_texts() -> Seq<(Seq<char>, Seq<char>)> {
        connection_menu()
    }

    open spec fn entered(v: ConnectionPageView) -> ConnectionPageView {
        v.entered()
    }

    open spec fn enter_commands(v: ConnectionPageView) -> Seq<CommandView> {
        v.enter_commands()
    }

    open spec fn data_taken(v: ConnectionPageView, data: Connection, now: Instant)
        -> ConnectionPageView {
        v.after_data(data, now)
    }

    open spec fn data_commands(v: ConnectionPageView, data: Connection) -> Seq<CommandView> {
        v.data_commands(data)
    }

    open spec fn shown(v: ConnectionPageView, area_width: u16, area_height: u16)
        -> ConnectionPageView {
        ConnectionPageView { table: v.table.drawn(), ..v }
    }

    open spec fn framed(
        v: ConnectionPageView,
        area_width: u16,
        area_height: u16,
        frame: TableFrame,
    ) -> bool {
        v.table.frames(frame)
    }

    fn set_filter(&mut self, filter: &str) {
        ConnectionPage::set_filter(self, filter)
    }

    fn get_menu() -> (menu: Menu) {
        ConnectionPage::get_menu()
    }

    fn on_key(&mut self, key_event: KeyEvent) -> (commands: Vec<Command>) {
        ConnectionPage::on_key(self, key_event)
    }

    fn show(&mut self, area_width: u16, area_height: u16) -> (frame: TableFrame) {
        ConnectionPage::show(self)
    }

    fn active(&mut self) -> (commands: Vec<Command>) {
        ConnectionPage::active(self)
    }

    fn on_data(&mut self, data: Connection, now: Instant) -> (commands: Vec<Command>) {
        ConnectionPage::on_data_at(self, data, now)
    }
}

} // verus!
