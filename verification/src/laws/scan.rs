//! What is relied on when blocks are scanned.

use vstd::prelude::*;

use crate::laws::text::lines_end_at_line_feeds;
use crate::request::EpicRequest;
use crate::scan::{
    ensure_recent_restore_scan, ensure_restore_scan, mark_failure,
    marker_reads_back, marker_scanned_height, marker_start_height, marker_u64,
    start_height, starts_with, write_restore_scan_marker, InitStep, MarkerFile, RecentAction,
    RecentEvent, RecentScan, RestoreAction, RestoreEvent, EPIC_ALTBASE_SUPPORT_START_HEIGHT,
};
use crate::text::{decimal, lines, parsed_u64, trimmed};

verus! {

/// The block that a request names, where it names one above zero, and else the
/// first block of wallets of this kind.
pub open spec fn asked_block(named: Option<u64>) -> u64 {
    match named {
        Some(height) => if height == 0 {
            3_540_000
        } else {
            height
        },
        None => 3_540_000,
    }
}

/// Every height above zero that a request names is the block to start from;
/// only where it names none or zero is it the first block of wallets of this kind.
pub proof fn named_block_is_the_start(req: EpicRequest, res: u64)
    requires
        call_ensures(start_height, (&req,), res),
    ensures
        req.restore_start_height matches Some(height) ==> (height > 0 ==> res == height),
        req.restore_start_height == Some(0u64) ==> res == 3_540_000,
        req.restore_start_height is None ==> res == 3_540_000,
{
}

/// A wallet without a marker file is scanned from the block that the request
/// names, whichever it is, and there is no file to remove.
pub proof fn unmarked_wallet_is_scanned_from_the_named_block(req: EpicRequest, res: RestoreAction)
    requires
        call_ensures(
            ensure_restore_scan,
            (&req, RestoreEvent::Looked(MarkerFile::Missing)),
            res,
        ),
    ensures
        res == (RestoreAction::Scan {
            from: asked_block(req.restore_start_height),
            remove_marker: false,
        }),
        req.restore_start_height matches Some(height) ==> (height > 0 ==> res == (
        RestoreAction::Scan { from: height, remove_marker: false })),
        req.restore_start_height is None || req.restore_start_height == Some(0u64) ==> res == (
        RestoreAction::Scan { from: EPIC_ALTBASE_SUPPORT_START_HEIGHT, remove_marker: false }),
        EPIC_ALTBASE_SUPPORT_START_HEIGHT == 3_540_000,
{
}

/// A wallet with a marker file is scanned again only where the file names a
/// later block than the request, and then from the block of the request; a
/// file that cannot be read, or names no block, counts as done.
pub proof fn marked_wallet_is_scanned_for_an_earlier_block(
    req: EpicRequest,
    text: String,
    read: &str,
    named: Option<u64>,
    res: RestoreAction,
    unreadable: RestoreAction,
)
    requires
        read@ == text@,
        call_ensures(marker_start_height, (read,), named),
        call_ensures(
            ensure_restore_scan,
            (&req, RestoreEvent::Looked(MarkerFile::Text(text))),
            res,
        ),
        call_ensures(
            ensure_restore_scan,
            (&req, RestoreEvent::Looked(MarkerFile::Unreadable)),
            unreadable,
        ),
    ensures
        unreadable is Mark,
        named is None ==> res is Mark,
        named matches Some(height) ==> res == (if height <= asked_block(req.restore_start_height) {
            RestoreAction::Mark
        } else {
            RestoreAction::Scan {
                from: asked_block(req.restore_start_height),
                remove_marker: true,
            }
        }),
{
}

/// After a scan the wallet is marked as complete, and after that a marker file
/// is written that names the block that the request named, both as the start
/// and as the last block that was scanned.
pub proof fn scan_is_marked_with_the_named_block(
    req: EpicRequest,
    scanned: RestoreAction,
    marked: RestoreAction,
    written: &str,
    start: Option<u64>,
    last: Option<u64>,
)
    requires
        call_ensures(ensure_restore_scan, (&req, RestoreEvent::Scanned(Ok(()))), scanned),
        call_ensures(ensure_restore_scan, (&req, RestoreEvent::MarkedAfterScan(Ok(()))), marked),
        marked matches RestoreAction::Write(text) ==> written@ == text@,
        call_ensures(marker_start_height, (written,), start),
        call_ensures(marker_scanned_height, (written,), last),
    ensures
        scanned is MarkAfterScan,
        marked is Write,
        start == Some(asked_block(req.restore_start_height)),
        last == Some(asked_block(req.restore_start_height)),
        req.restore_start_height matches Some(height) ==> (height > 0 ==> start == Some(height)
            && last == Some(height)),
{
    let asked = asked_block(req.restore_start_height);
    marker_reads_back(asked, asked);
}

/// A restore scan ends with the first failure, in words that say which step
/// failed, and with success once the file is written or nothing was to be scanned.
pub proof fn restore_scan_ends_with_the_first_failure(
    req: EpicRequest,
    reason: String,
    scanned: RestoreAction,
    marked: RestoreAction,
    marked_after: RestoreAction,
    written: RestoreAction,
    done: RestoreAction,
    nothing_to_do: RestoreAction,
)
    requires
        call_ensures(ensure_restore_scan, (&req, RestoreEvent::Scanned(Err(reason))), scanned),
        call_ensures(ensure_restore_scan, (&req, RestoreEvent::Marked(Err(reason))), marked),
        call_ensures(
            ensure_restore_scan,
            (&req, RestoreEvent::MarkedAfterScan(Err(reason))),
            marked_after,
        ),
        call_ensures(ensure_restore_scan, (&req, RestoreEvent::Written(Err(reason))), written),
        call_ensures(ensure_restore_scan, (&req, RestoreEvent::Written(Ok(()))), done),
        call_ensures(ensure_restore_scan, (&req, RestoreEvent::Marked(Ok(()))), nothing_to_do),
    ensures
        scanned matches RestoreAction::Return(Err(message)) && message@ == "Epic restore scan: "@
            + reason@,
        marked == RestoreAction::Return(Err(reason)),
        marked_after == RestoreAction::Return(Err(reason)),
        written matches RestoreAction::Return(Err(message)) && message@
            == "Epic restore scan marker: "@ + reason@,
        done == RestoreAction::Return(Ok(())),
        nothing_to_do == RestoreAction::Return(Ok(())),
{
}

/// What is written into a marker file is what is read from it.
pub proof fn written_marker_is_read_back(
    start: u64,
    scanned: u64,
    written: String,
    text: &str,
    first: Option<u64>,
    last: Option<u64>,
)
    requires
        call_ensures(write_restore_scan_marker, (start, scanned), written),
        text@ == written@,
        call_ensures(marker_start_height, (text,), first),
        call_ensures(marker_scanned_height, (text,), last),
    ensures
        first == Some(start),
        last == Some(scanned),
        written@ =~= "startHeight="@ + decimal(start as nat) + "\n"@ + "scannedHeight="@ + decimal(
            scanned as nat,
        ) + "\n"@,
{
    marker_reads_back(start, scanned);
}

/// The two numbers of a marker file stand under `startHeight` and `scannedHeight`.
pub proof fn marker_numbers_have_their_keys(
    text: &str,
    start_key: &str,
    scanned_key: &str,
    start: Option<u64>,
    scanned: Option<u64>,
    under_start: Option<u64>,
    under_scanned: Option<u64>,
)
    requires
        start_key@ == "startHeight"@,
        scanned_key@ == "scannedHeight"@,
        call_ensures(marker_start_height, (text,), start),
        call_ensures(marker_scanned_height, (text,), scanned),
        call_ensures(marker_u64, (text, start_key), under_start),
        call_ensures(marker_u64, (text, scanned_key), under_scanned),
    ensures
        start == under_start,
        scanned == under_scanned,
{
}

/// Whether a line ends like this: at a line feed, with a carriage return before
/// it or not, or with the text.
pub open spec fn ends_line(line: Seq<char>, ending: Seq<char>, rest: Seq<char>) -> bool {
    ||| ending == seq!['\n'] && (line.len() > 0 ==> line.last() != '\r')
    ||| ending == seq!['\r', '\n']
    ||| ending.len() == 0 && rest.len() == 0 && line.len() > 0
}

/// A marker file is read line by line: a first line that starts with the key
/// and an equals sign decides, by the number behind them; any other first line
/// is passed over. An empty file holds no number.
pub proof fn first_line_with_the_key_decides(
    text: &str,
    key: &str,
    line: Seq<char>,
    ending: Seq<char>,
    rest: &str,
    res: Option<u64>,
    later: Option<u64>,
)
    requires
        forall|i: int| 0 <= i < line.len() ==> line[i] != '\n',
        ends_line(line, ending, rest@),
        text@ == line + ending + rest@,
        call_ensures(marker_u64, (text, key), res),
        call_ensures(marker_u64, (rest, key), later),
    ensures
        forall|value: Seq<char>|
            line == #[trigger] (key@ + "="@ + value) ==> res == parsed_u64(trimmed(value)),
        (forall|value: Seq<char>| line != #[trigger] (key@ + "="@ + value)) ==> res == later,
        rest@.len() == 0 ==> later is None,
{
    let prefix = key@ + "="@;
    let all = lines(text@);
    lines_end_at_line_feeds(line, rest@);
    if ending == seq!['\r', '\n'] {
        let returned = line.push('\r');
        lines_end_at_line_feeds(returned, rest@);
        assert(text@ =~= returned + seq!['\n'] + rest@);
        assert(returned.drop_last() =~= line);
    } else if ending.len() == 0 {
        assert(text@ =~= line);
        assert(seq![line] =~= seq![line] + lines(rest@));
    }
    assert(all == seq![line] + lines(rest@));
    assert(all[0] == line);
    assert(all.drop_first() =~= lines(rest@));
    assert forall|value: Seq<char>| line == #[trigger] (key@ + "="@ + value) implies res
        == parsed_u64(trimmed(value)) by {
        assert(line.take(prefix.len() as int) =~= prefix);
        assert(line.skip(prefix.len() as int) =~= value);
    }
    if starts_with(line, prefix) {
        let value = line.skip(prefix.len() as int);
        assert(line =~= key@ + "="@ + value);
    }
}

/// The number in a marker file that is read.
pub open spec fn or_else(found: Option<u64>, otherwise: u64) -> u64 {
    match found {
        Some(height) => height,
        None => otherwise,
    }
}

/// The smaller of two numbers.
pub open spec fn lesser(a: int, b: int) -> int {
    if a < b {
        a
    } else {
        b
    }
}

/// The larger of two numbers.
pub open spec fn greater(a: int, b: int) -> int {
    if a < b {
        b
    } else {
        a
    }
}

/// A recent scan is due at every tip above zero that the marker file does not
/// show as scanned. It goes back thirty blocks behind the last scanned block,
/// or behind the tip where no block after the restored one was scanned, but
/// neither before the block from which the wallet was restored nor after the
/// tip; and the wallet counts as restored from the earlier of the block in the
/// marker file and the block that the request names.
pub proof fn recent_scan_goes_back_thirty_blocks(
    req: EpicRequest,
    text: String,
    read: &str,
    started: Option<u64>,
    scanned: Option<u64>,
    tip_height: u64,
    res: Option<RecentScan>,
)
    requires
        read@ == text@,
        call_ensures(marker_start_height, (read,), started),
        call_ensures(marker_scanned_height, (read,), scanned),
        call_ensures(
            ensure_recent_restore_scan,
            (&req, &MarkerFile::Text(text), tip_height),
            res,
        ),
    ensures
        res is None <==> tip_height == 0 || (scanned is Some && scanned->0 >= tip_height),
        res matches Some(scan) ==> {
            let asked = asked_block(req.restore_start_height);
            let restored = lesser(or_else(started, asked) as int, asked as int);
            let last: int = if scanned is Some && scanned->0 > restored {
                scanned->0 as int
            } else {
                tip_height as int
            };
            &&& scan.tip_height == tip_height
            &&& scan.restore_start == restored
            &&& scan.scan_from == lesser(
                greater(greater(last - 30, 0), restored),
                tip_height as int,
            )
        },
{
}

/// Without a marker file that can be read, a recent scan is due at every tip
/// above zero, thirty blocks behind it, but not before the block that the
/// request names nor after the tip.
pub proof fn unmarked_wallet_is_scanned_behind_the_tip(
    req: EpicRequest,
    file: MarkerFile,
    tip_height: u64,
    res: Option<RecentScan>,
)
    requires
        !(file is Text),
        call_ensures(ensure_recent_restore_scan, (&req, &file, tip_height), res),
    ensures
        res is None <==> tip_height == 0,
        res matches Some(scan) ==> {
            let asked = asked_block(req.restore_start_height);
            &&& scan.tip_height == tip_height
            &&& scan.restore_start == asked
            &&& scan.scan_from == lesser(
                greater(greater(tip_height - 30, 0), asked as int),
                tip_height as int,
            )
        },
{
}

/// After a recent scan the wallet is marked as complete and a marker file is
/// written that names the block from which the wallet was restored and the tip;
/// then the scan is over. A step that fails ends it.
pub proof fn recent_scan_is_marked_with_the_tip(
    scan: RecentScan,
    reason: String,
    scanned: RecentAction,
    marked: RecentAction,
    written: &str,
    start: Option<u64>,
    last: Option<u64>,
    done: RecentAction,
    not_scanned: RecentAction,
    not_marked: RecentAction,
    not_written: RecentAction,
)
    requires
        call_ensures(RecentScan::proceed, (&scan, RecentEvent::Scanned(Ok(()))), scanned),
        call_ensures(RecentScan::proceed, (&scan, RecentEvent::Marked(Ok(()))), marked),
        marked matches RecentAction::Write(text) ==> written@ == text@,
        call_ensures(marker_start_height, (written,), start),
        call_ensures(marker_scanned_height, (written,), last),
        call_ensures(RecentScan::proceed, (&scan, RecentEvent::Written(Ok(()))), done),
        call_ensures(RecentScan::proceed, (&scan, RecentEvent::Scanned(Err(reason))), not_scanned),
        call_ensures(RecentScan::proceed, (&scan, RecentEvent::Marked(Err(reason))), not_marked),
        call_ensures(RecentScan::proceed, (&scan, RecentEvent::Written(Err(reason))), not_written),
    ensures
        scanned is Mark,
        marked is Write,
        start == Some(scan.restore_start),
        last == Some(scan.tip_height),
        done == RecentAction::Return(Ok(true)),
        not_scanned matches RecentAction::Return(Err(message)) && message@ == "Epic recent scan: "@
            + reason@,
        not_marked == RecentAction::Return(Err(reason)),
        not_written matches RecentAction::Return(Err(message)) && message@
            == "Epic restore scan marker: "@ + reason@,
{
    marker_reads_back(scan.restore_start, scan.tip_height);
}

/// A step by which a wallet is marked as complete fails in words that say which it was.
pub proof fn failed_mark_names_its_step(step: InitStep, reason: &str, res: String)
    requires
        call_ensures(mark_failure, (step, reason), res),
    ensures
        step is Provider ==> res@ == "Epic lifecycle provider: "@ + reason@,
        step is Instance ==> res@ == "Epic wallet instance: "@ + reason@,
        step is Batch ==> res@ == "Epic wallet batch: "@ + reason@,
        step is Status ==> res@ == "Epic restore scan status: "@ + reason@,
        step is Commit ==> res@ == "Epic restore scan status commit: "@ + reason@,
{
}

} // verus!
