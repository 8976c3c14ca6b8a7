//! Which blocks are scanned for the outputs of a wallet, and the marker file
//! that remembers it.

use vstd::prelude::*;

use crate::request::{is_labelled, labelled, EpicRequest};
use crate::text::{
    all_digits, chars_of, decimal, decimal_reads_back, decimal_text, is_digit, join, join3,
    lemma_decimal, lemma_line_end, line_end, lines, parse_u64, parsed_u64, trim, trimmed, white,
    without_return,
};

verus! {

/// The block at which wallets of this kind began.
pub const EPIC_ALTBASE_SUPPORT_START_HEIGHT: u64 = 3_540_000;

/// How many blocks are scanned again behind the last one that was scanned.
pub const EPIC_RECENT_RESCAN_BLOCKS: u64 = 30;

/// The name of the marker file.
pub fn restore_scan_marker() -> (res: &'static str)
    ensures
        res@ == "altbase.restore-scan.done"@,
{
    "altbase.restore-scan.done"
}

/// Whether `line` starts with `prefix`.
pub open spec fn starts_with(line: Seq<char>, prefix: Seq<char>) -> bool {
    line.len() >= prefix.len() && line.take(prefix.len() as int) == prefix
}

/// What follows `prefix` in the first line that starts with it.
pub open spec fn after_prefix(all: Seq<Seq<char>>, prefix: Seq<char>) -> Option<Seq<char>>
    decreases all.len(),
{
    if all.len() == 0 {
        None
    } else if starts_with(all[0], prefix) {
        Some(all[0].skip(prefix.len() as int))
    } else {
        after_prefix(all.drop_first(), prefix)
    }
}

/// The number under `key` in the text of a marker file: in the first line that
/// starts with the key and an equals sign, whatever white space is round the number.
pub open spec fn marker_number(text: Seq<char>, key: Seq<char>) -> Option<u64> {
    match after_prefix(lines(text), key + "="@) {
        Some(value) => parsed_u64(trimmed(value)),
        None => None,
    }
}

/// Whether `prefix` stands in `chars` at `from`, before `to`.
fn prefix_at(chars: &Vec<char>, from: usize, to: usize, prefix: &Vec<char>) -> (res: bool)
    requires
        from <= to <= chars@.len(),
    ensures
        res == starts_with(chars@.subrange(from as int, to as int), prefix@),
{
    let ghost line = chars@.subrange(from as int, to as int);
    if to - from < prefix.len() {
        return false;
    }
    let mut i: usize = 0;
    while i < prefix.len()
        invariant
            i <= prefix@.len(),
            from <= to <= chars.len(),
            prefix@.len() <= to - from,
            line == chars@.subrange(from as int, to as int),
            forall|j: int| 0 <= j < i ==> line[j] == prefix@[j],
        decreases prefix@.len() - i,
    {
        if chars[from + i] != prefix[i] {
            assert(line.take(prefix@.len() as int)[i as int] != prefix@[i as int]);
            return false;
        }
        i = i + 1;
    }
    assert(line.take(prefix@.len() as int) =~= prefix@);
    true
}

/// The number under `key` in the text of a marker file.
pub fn marker_u64(text: &str, key: &str) -> (res: Option<u64>)
    ensures
        res == marker_number(text@, key@),
{
    let chars = chars_of(text);
    let prefix_text = join(key, "=");
    let prefix = chars_of(prefix_text.as_str());
    let mut pos: usize = 0;
    assert(text@.skip(0) =~= text@);
    while pos < chars.len()
        invariant
            chars@ == text@,
            prefix@ == key@ + "="@,
            pos <= chars@.len(),
            after_prefix(lines(text@), prefix@) == after_prefix(lines(text@.skip(pos as int)), prefix@),
        decreases chars@.len() - pos,
    {
        let ghost rest = text@.skip(pos as int);
        let mut end: usize = pos;
        proof {
            lemma_line_end(rest);
        }
        while end < chars.len() && chars[end] != '\n'
            invariant
                chars@ == text@,
                pos <= end <= chars@.len(),
                pos < chars@.len(),
                rest == text@.skip(pos as int),
                line_end(rest) <= rest.len(),
                line_end(rest) < rest.len() ==> rest[line_end(rest) as int] == '\n',
                end - pos <= line_end(rest),
            decreases chars@.len() - end,
        {
            assert(chars@[end as int] == rest[end - pos]);
            end = end + 1;
        }
        assert(end - pos == line_end(rest)) by {
            if end < chars@.len() {
                assert(chars@[end as int] == rest[end - pos]);
            }
        }
        let ended = end < chars.len();
        let to: usize = if ended && end > pos && chars[end - 1] == '\r' {
            end - 1
        } else {
            end
        };
        let ghost line = chars@.subrange(pos as int, to as int);
        proof {
            if ended {
                assert(rest.take(end - pos) =~= chars@.subrange(pos as int, end as int));
                assert(without_return(rest.take(end - pos)) =~= line);
                assert(rest.skip(end - pos + 1) =~= text@.skip(end + 1));
                assert(lines(rest) == seq![line] + lines(text@.skip(end + 1)));
                assert((seq![line] + lines(text@.skip(end + 1))).drop_first() =~= lines(
                    text@.skip(end + 1),
                ));
            } else {
                assert(rest =~= line);
                assert(lines(rest) =~= seq![line]);
                assert(seq![line].drop_first() =~= Seq::<Seq<char>>::empty());
            }
        }
        if prefix_at(&chars, pos, to, &prefix) {
            let mut value: Vec<char> = Vec::new();
            let mut i: usize = pos + prefix.len();
            while i < to
                invariant
                    chars@ == text@,
                    pos + prefix@.len() <= i <= to <= chars@.len(),
                    value@ == chars@.subrange(pos + prefix@.len(), i as int),
                decreases to - i,
            {
                value.push(chars[i]);
                i = i + 1;
                assert(chars@.subrange(pos + prefix@.len(), i as int) =~= chars@.subrange(
                    pos + prefix@.len(),
                    i - 1,
                ).push(chars@[i - 1]));
            }
            assert(value@ =~= line.skip(prefix@.len() as int));
            return parse_u64(&trim(&value));
        }
        if !ended {
            assert(after_prefix(lines(rest).drop_first(), prefix@) is None);
            return None;
        }
        pos = end + 1;
    }
    assert(text@.skip(pos as int).len() == 0);
    None
}

/// The block from which the wallet was restored.
pub fn marker_start_height(text: &str) -> (res: Option<u64>)
    ensures
        res == marker_number(text@, "startHeight"@),
{
    marker_u64(text, "startHeight")
}

/// The last block that was scanned.
pub fn marker_scanned_height(text: &str) -> (res: Option<u64>)
    ensures
        res == marker_number(text@, "scannedHeight"@),
{
    marker_u64(text, "scannedHeight")
}

/// The text of the marker file.
pub open spec fn marker_text(start_height: u64, scanned_height: u64) -> Seq<char> {
    ("startHeight="@ + decimal(start_height as nat) + "\n"@) + ("scannedHeight="@ + decimal(
        scanned_height as nat,
    ) + "\n"@)
}

/// The text of the marker file.
pub fn write_restore_scan_marker(start_height: u64, scanned_height: u64) -> (res: String)
    ensures
        res@ == marker_text(start_height, scanned_height),
{
    let start = decimal_text(start_height);
    let scanned = decimal_text(scanned_height);
    let first = join3("startHeight=", start.as_str(), "\n");
    let second = join3("scannedHeight=", scanned.as_str(), "\n");
    join(first.as_str(), second.as_str())
}

/// A text without a line feed and a line feed after it are one line.
proof fn lemma_first_line(line: Seq<char>, rest: Seq<char>)
    requires
        forall|i: int| 0 <= i < line.len() ==> line[i] != '\n',
        line.len() > 0,
        line.last() != '\r',
    ensures
        lines(line + seq!['\n'] + rest) == seq![line] + lines(rest),
{
    let whole = line + seq!['\n'] + rest;
    lemma_line_end(whole);
    assert(whole[line.len() as int] == '\n');
    assert(line_end(whole) == line.len()) by {
        if line_end(whole) < line.len() {
            assert(whole[line_end(whole) as int] == line[line_end(whole) as int]);
        }
    }
    assert(whole.take(line.len() as int) =~= line);
    assert(whole.skip(line.len() as int + 1) =~= rest);
}

/// Digits have no white space to trim.
proof fn lemma_digits_trimmed(s: Seq<char>)
    requires
        all_digits(s),
    ensures
        trimmed(s) == s,
{
    assert(is_digit(s[0]) && is_digit(s.last()));
}

/// What is written into the marker file is what is read from it.
pub proof fn marker_reads_back(start_height: u64, scanned_height: u64)
    ensures
        marker_number(marker_text(start_height, scanned_height), "startHeight"@) == Some(
            start_height,
        ),
        marker_number(marker_text(start_height, scanned_height), "scannedHeight"@) == Some(
            scanned_height,
        ),
{
    reveal_strlit("startHeight");
    reveal_strlit("startHeight=");
    reveal_strlit("scannedHeight");
    reveal_strlit("scannedHeight=");
    reveal_strlit("=");
    reveal_strlit("\n");
    let a = decimal(start_height as nat);
    let b = decimal(scanned_height as nat);
    lemma_decimal(start_height as nat);
    lemma_decimal(scanned_height as nat);
    decimal_reads_back(start_height);
    decimal_reads_back(scanned_height);
    lemma_digits_trimmed(a);
    lemma_digits_trimmed(b);
    let first = "startHeight="@ + a;
    let second = "scannedHeight="@ + b;
    assert forall|i: int| 0 <= i < first.len() implies first[i] != '\n' by {
        if i >= 12 {
            assert(is_digit(a[i - 12]));
        }
    }
    assert forall|i: int| 0 <= i < second.len() implies second[i] != '\n' by {
        if i >= 14 {
            assert(is_digit(b[i - 14]));
        }
    }
    assert(is_digit(a.last()) && is_digit(b.last()));
    assert(first.last() == a.last() && second.last() == b.last());
    let text = marker_text(start_height, scanned_height);
    let tail = second + seq!['\n'];
    assert(text =~= first + seq!['\n'] + tail);
    assert(tail =~= second + seq!['\n'] + Seq::<char>::empty());
    lemma_first_line(first, tail);
    lemma_first_line(second, Seq::empty());
    let all = seq![first] + (seq![second] + Seq::<Seq<char>>::empty());
    assert(lines(Seq::<char>::empty()) =~= Seq::<Seq<char>>::empty());
    assert(lines(text) =~= all);
    assert("startHeight"@ + "="@ =~= "startHeight="@);
    assert("scannedHeight"@ + "="@ =~= "scannedHeight="@);
    assert(all[0] == first);
    assert(first.take(12) =~= "startHeight="@);
    assert(first.skip(12) =~= a);
    assert(!starts_with(first, "scannedHeight="@)) by {
        if first.len() >= 14 {
            assert(first.take(14)[1] != "scannedHeight="@[1]);
        }
    }
    assert(all.drop_first()[0] == second);
    assert(second.take(14) =~= "scannedHeight="@);
    assert(second.skip(14) =~= b);
    assert(after_prefix(all.drop_first(), "scannedHeight="@) == Some(b));
}

/// The block from which a request asks the wallet to be restored.
pub open spec fn start_height_of(req: EpicRequest) -> u64 {
    match req.restore_start_height {
        Some(height) => if height > 0 {
            height
        } else {
            EPIC_ALTBASE_SUPPORT_START_HEIGHT
        },
        None => EPIC_ALTBASE_SUPPORT_START_HEIGHT,
    }
}

/// The block from which a request asks the wallet to be restored.
pub fn start_height(req: &EpicRequest) -> (res: u64)
    ensures
        res == start_height_of(*req),
{
    match req.restore_start_height {
        Some(height) => if height > 0 {
            height
        } else {
            EPIC_ALTBASE_SUPPORT_START_HEIGHT
        },
        None => EPIC_ALTBASE_SUPPORT_START_HEIGHT,
    }
}

/// The marker file as it was found.
pub enum MarkerFile {
    /// There is none.
    Missing,
    /// There is one that cannot be read.
    Unreadable,
    /// There is one with this text.
    Text(String),
}

/// The number under `key` in the marker file, if it can be read and has one.
pub open spec fn file_number(file: MarkerFile, key: Seq<char>) -> Option<u64> {
    match file {
        MarkerFile::Text(text) => marker_number(text@, key),
        _ => None,
    }
}

/// What happened to a restore scan outside.
pub enum RestoreEvent {
    /// The marker file was looked at.
    Looked(MarkerFile),
    /// The blocks were scanned, or the reason why not.
    Scanned(Result<(), String>),
    /// The wallet was marked as complete without a scan, or the reason why not.
    Marked(Result<(), String>),
    /// The wallet was marked as complete after a scan, or the reason why not.
    MarkedAfterScan(Result<(), String>),
    /// The marker file was written, or the reason why not.
    Written(Result<(), String>),
}

/// What a restore scan is to do outside.
pub enum RestoreAction {
    /// Scan from this block, and remove the marker file before that where asked to.
    Scan { from: u64, remove_marker: bool },
    /// Mark the wallet as complete.
    Mark,
    /// Mark the wallet as complete after a scan.
    MarkAfterScan,
    /// Write this into the marker file.
    Write(String),
    /// Return.
    Return(Result<(), String>),
}

/// Whether the marker file shows that the wallet was restored from
/// `start_height` or before: it does unless it names a later block.
pub open spec fn restored_from(file: MarkerFile, start_height: u64) -> bool {
    !(file is Missing) && (file_number(file, "startHeight"@) matches Some(height) ==> height
        <= start_height)
}

/// Takes in what happened to the restore scan and says what is to be done. The
/// wallet is scanned once from the block that the request names, and again
/// only where the request names an earlier one.
pub fn ensure_restore_scan(req: &EpicRequest, event: RestoreEvent) -> (res: RestoreAction)
    ensures
        match event {
            RestoreEvent::Looked(file) => res == if restored_from(file, start_height_of(*req)) {
                RestoreAction::Mark
            } else {
                RestoreAction::Scan {
                    from: start_height_of(*req),
                    remove_marker: !(file is Missing),
                }
            },
            RestoreEvent::Scanned(Ok(_)) => res is MarkAfterScan,
            RestoreEvent::Scanned(Err(reason)) => res matches RestoreAction::Return(Err(message))
                && message@ == "Epic restore scan: "@ + reason@,
            RestoreEvent::Marked(result) => res == RestoreAction::Return(result),
            RestoreEvent::MarkedAfterScan(Ok(_)) => res matches RestoreAction::Write(text) && text@
                == marker_text(start_height_of(*req), start_height_of(*req)),
            RestoreEvent::MarkedAfterScan(Err(reason)) => res == RestoreAction::Return(Err(reason)),
            RestoreEvent::Written(result) => res matches RestoreAction::Return(returned)
                && is_labelled("Epic restore scan marker: "@, result, returned),
        },
{
    let start = start_height(req);
    match event {
        RestoreEvent::Looked(file) => match file {
            MarkerFile::Missing => RestoreAction::Scan { from: start, remove_marker: false },
            MarkerFile::Unreadable => RestoreAction::Mark,
            MarkerFile::Text(text) => match marker_start_height(text.as_str()) {
                Some(height) => if height <= start {
                    RestoreAction::Mark
                } else {
                    RestoreAction::Scan { from: start, remove_marker: true }
                },
                None => RestoreAction::Mark,
            },
        },
        RestoreEvent::Scanned(Ok(())) => RestoreAction::MarkAfterScan,
        RestoreEvent::Scanned(Err(reason)) => RestoreAction::Return(
            Err(join("Epic restore scan: ", reason.as_str())),
        ),
        RestoreEvent::Marked(result) => RestoreAction::Return(result),
        RestoreEvent::MarkedAfterScan(Ok(())) => RestoreAction::Write(
            write_restore_scan_marker(start, start),
        ),
        RestoreEvent::MarkedAfterScan(Err(reason)) => RestoreAction::Return(Err(reason)),
        RestoreEvent::Written(result) => RestoreAction::Return(
            labelled("Epic restore scan marker: ", result),
        ),
    }
}

/// A wallet that was restored from a block is not scanned again for the same
/// request, nor for one that names a later block; it is for one that names an
/// earlier block.
pub proof fn restored_wallet_is_not_scanned_again(file: MarkerFile, restored: u64, scanned: u64, asked: u64)
    requires
        file matches MarkerFile::Text(text) && text@ == marker_text(restored, scanned),
    ensures
        restored_from(file, asked) <==> restored <= asked,
{
    marker_reads_back(restored, scanned);
}

/// A scan of the blocks that came since the last one.
pub struct RecentScan {
    /// The block to scan from.
    pub scan_from: u64,
    /// The block from which the wallet was restored.
    pub restore_start: u64,
    /// The last block.
    pub tip_height: u64,
}

/// The block from which the wallet counts as restored: the one in the marker
/// file, where it is not after the one that the request names.
pub open spec fn restore_start_of(file: MarkerFile, start_height: u64) -> u64 {
    match file_number(file, "startHeight"@) {
        Some(height) => if height <= start_height {
            height
        } else {
            start_height
        },
        None => start_height,
    }
}

/// `height` without the blocks that are scanned again; below them, zero.
pub open spec fn behind(height: u64) -> u64 {
    if height < EPIC_RECENT_RESCAN_BLOCKS {
        0
    } else {
        (height - EPIC_RECENT_RESCAN_BLOCKS) as u64
    }
}

/// `height`, raised to `low` and then lowered to `high`.
pub open spec fn bounded(height: u64, low: u64, high: u64) -> u64 {
    let raised = if height < low {
        low
    } else {
        height
    };
    if raised > high {
        high
    } else {
        raised
    }
}

/// The scan that is due at `tip_height`, if one is: none at block zero, and
/// none where the marker file shows that the block was scanned.
pub open spec fn recent_scan_due(file: MarkerFile, start_height: u64, tip_height: u64) -> Option<
    RecentScan,
> {
    let scanned = file_number(file, "scannedHeight"@);
    let restore_start = restore_start_of(file, start_height);
    if tip_height == 0 || (scanned matches Some(height) && height >= tip_height) {
        None
    } else {
        let from = match scanned {
            Some(height) => if height > restore_start {
                behind(height)
            } else {
                behind(tip_height)
            },
            None => behind(tip_height),
        };
        Some(
            RecentScan {
                scan_from: bounded(from, restore_start, tip_height),
                restore_start,
                tip_height,
            },
        )
    }
}

/// The scan that is due at `tip_height`, if one is.
pub fn ensure_recent_restore_scan(req: &EpicRequest, file: &MarkerFile, tip_height: u64) -> (res:
    Option<RecentScan>)
    ensures
        res == recent_scan_due(*file, start_height_of(*req), tip_height),
{
    if tip_height == 0 {
        return None;
    }
    let start = start_height(req);
    let (started, scanned) = match file {
        MarkerFile::Text(text) => (
            marker_start_height(text.as_str()),
            marker_scanned_height(text.as_str()),
        ),
        _ => (None, None),
    };
    let restore_start = match started {
        Some(height) => if height <= start {
            height
        } else {
            start
        },
        None => start,
    };
    if let Some(height) = scanned {
        if height >= tip_height {
            return None;
        }
    }
    let from = match scanned {
        Some(height) => if height > restore_start {
            height.saturating_sub(EPIC_RECENT_RESCAN_BLOCKS)
        } else {
            tip_height.saturating_sub(EPIC_RECENT_RESCAN_BLOCKS)
        },
        None => tip_height.saturating_sub(EPIC_RECENT_RESCAN_BLOCKS),
    };
    let raised = if from < restore_start {
        restore_start
    } else {
        from
    };
    let scan_from = if raised > tip_height {
        tip_height
    } else {
        raised
    };
    Some(RecentScan { scan_from, restore_start, tip_height })
}

/// What happened to a recent scan outside.
pub enum RecentEvent {
    /// The blocks were scanned, or the reason why not.
    Scanned(Result<(), String>),
    /// The wallet was marked as complete, or the reason why not.
    Marked(Result<(), String>),
    /// The marker file was written, or the reason why not.
    Written(Result<(), String>),
}

/// What a recent scan is to do outside.
pub enum RecentAction {
    /// Mark the wallet as complete.
    Mark,
    /// Write this into the marker file.
    Write(String),
    /// Return: whether the wallet was scanned, or the failure.
    Return(Result<bool, String>),
}

impl RecentScan {
    /// Takes in what happened to the scan and says what is to be done.
    pub fn proceed(&self, event: RecentEvent) -> (res: RecentAction)
        ensures
            match event {
                RecentEvent::Scanned(Ok(_)) => res is Mark,
                RecentEvent::Scanned(Err(reason)) => res matches RecentAction::Return(Err(message))
                    && message@ == "Epic recent scan: "@ + reason@,
                RecentEvent::Marked(Ok(_)) => res matches RecentAction::Write(text) && text@
                    == marker_text(self.restore_start, self.tip_height),
                RecentEvent::Marked(Err(reason)) => res == RecentAction::Return(Err(reason)),
                RecentEvent::Written(Ok(_)) => res == RecentAction::Return(Ok(true)),
                RecentEvent::Written(Err(reason)) => res matches RecentAction::Return(Err(message))
                    && message@ == "Epic restore scan marker: "@ + reason@,
            },
    {
        match event {
            RecentEvent::Scanned(Ok(())) => RecentAction::Mark,
            RecentEvent::Scanned(Err(reason)) => RecentAction::Return(
                Err(join("Epic recent scan: ", reason.as_str())),
            ),
            RecentEvent::Marked(Ok(())) => RecentAction::Write(
                write_restore_scan_marker(self.restore_start, self.tip_height),
            ),
            RecentEvent::Marked(Err(reason)) => RecentAction::Return(Err(reason)),
            RecentEvent::Written(Ok(())) => RecentAction::Return(Ok(true)),
            RecentEvent::Written(Err(reason)) => RecentAction::Return(
                Err(join("Epic restore scan marker: ", reason.as_str())),
            ),
        }
    }
}

/// A recent scan stays between the block from which the wallet was restored
/// and the tip, and leaves no gap behind the last block that the marker file
/// names after that block.
pub proof fn recent_scan_leaves_no_gap(file: MarkerFile, start_height: u64, tip_height: u64)
    ensures
        recent_scan_due(file, start_height, tip_height) matches Some(scan) ==> {
            &&& scan.scan_from <= tip_height
            &&& scan.restore_start <= start_height
            &&& scan.restore_start <= tip_height ==> scan.restore_start <= scan.scan_from
            &&& match file_number(file, "scannedHeight"@) {
                Some(height) => height > scan.restore_start ==> scan.scan_from <= height,
                None => true,
            }
        },
{
}

/// After a recent scan the marker file shows that nothing more is due at that
/// tip nor at any before it, and the next scan counts the wallet as restored
/// from the same block.
pub proof fn recent_scan_is_not_repeated(
    before: MarkerFile,
    after: MarkerFile,
    start_height: u64,
    tip_height: u64,
    up_to: u64,
)
    requires
        recent_scan_due(before, start_height, tip_height) matches Some(scan) && after matches
            MarkerFile::Text(text) && text@ == marker_text(scan.restore_start, scan.tip_height),
        up_to <= tip_height,
    ensures
        recent_scan_due(after, start_height, up_to) is None,
        restore_start_of(after, start_height) == restore_start_of(before, start_height),
{
    let scan = recent_scan_due(before, start_height, tip_height)->0;
    marker_reads_back(scan.restore_start, scan.tip_height);
}

/// The steps by which a wallet is marked as complete.
#[derive(Copy, Clone)]
pub enum InitStep {
    Provider,
    Instance,
    Batch,
    Status,
    Commit,
}

/// What comes before the reason for which a step failed.
pub open spec fn init_label(step: InitStep) -> Seq<char> {
    match step {
        InitStep::Provider => "Epic lifecycle provider: "@,
        InitStep::Instance => "Epic wallet instance: "@,
        InitStep::Batch => "Epic wallet batch: "@,
        InitStep::Status => "Epic restore scan status: "@,
        InitStep::Commit => "Epic restore scan status commit: "@,
    }
}

/// The failure of a step by which a wallet is marked as complete.
pub fn mark_failure(step: InitStep, reason: &str) -> (res: String)
    ensures
        res@ == init_label(step) + reason@,
{
    let label = match step {
        InitStep::Provider => "Epic lifecycle provider: ",
        InitStep::Instance => "Epic wallet instance: ",
        InitStep::Batch => "Epic wallet batch: ",
        InitStep::Status => "Epic restore scan status: ",
        InitStep::Commit => "Epic restore scan status commit: ",
    };
    join(label, reason)
}

} // verus!
