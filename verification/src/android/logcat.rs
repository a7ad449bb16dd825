//! Log file naming and the registry of running logcat streams.
use vstd::prelude::*;

use crate::app::{index_in, lemma_first_index, lemma_index_in};
use crate::text::{push_char, to_chars};

verus! {

/// What `char::is_alphanumeric` returns for `c` (the Unicode `Alphabetic`
/// or `Numeric` properties).
pub uninterp spec fn alphanumeric(c: char) -> bool;

/// Calls `char::is_alphanumeric`. The contract only ties the result to the
/// fixed predicate `alphanumeric`; the Unicode tables are not stated.
#[verifier::external_body]
fn char_is_alphanumeric(c: char) -> (b: bool)
    ensures
        b == alphanumeric(c),
{
    c.is_alphanumeric()
}

/// A character that may stay in a log file name.
pub open spec fn safe_file_char(c: char) -> bool {
    alphanumeric(c) || c == '-' || c == '_' || c == '.'
}

/// The serial with every character that is not alphanumeric, `-`, `_` or `.`
/// replaced by `_`.
pub open spec fn sanitized(serial: Seq<char>) -> Seq<char> {
    Seq::new(serial.len(), |i: int| if safe_file_char(serial[i]) { serial[i] } else { '_' })
}

/// Makes a device serial usable as a file name.
pub fn sanitize_serial(serial: &str) -> (r: String)
    ensures
        r@ == sanitized(serial@),
{
    let chars = to_chars(serial);
    let mut r = String::new();
    let n = chars.len();
    let mut i: usize = 0;
    while i < n
        invariant
            i <= n,
            n == chars@.len(),
            chars@ == serial@,
            r@ == sanitized(serial@).take(i as int),
        decreases n - i,
    {
        let c = chars[i];
        let keep = char_is_alphanumeric(c) || c == '-' || c == '_' || c == '.';
        if keep {
            push_char(&mut r, c);
        } else {
            push_char(&mut r, '_');
        }
        assert(sanitized(serial@).take(i + 1) =~= sanitized(serial@).take(i as int).push(
            sanitized(serial@)[i as int],
        ));
        i = i + 1;
    }
    assert(sanitized(serial@).take(n as int) =~= sanitized(serial@));
    r
}

/// `dir` joined with `name` as `Path::join` does for a relative file name:
/// a `/` is put between them unless `dir` is empty or already ends with one.
pub open spec fn join_path(dir: Seq<char>, name: Seq<char>) -> Seq<char> {
    if dir.len() == 0 {
        name
    } else if dir.last() == '/' {
        dir + name
    } else {
        dir + seq!['/'] + name
    }
}

/// The file that keeps the log lines of a device: `<dir>/<sanitized serial>.log`.
pub open spec fn log_file_of(logs_dir: Seq<char>, serial: Seq<char>) -> Seq<char> {
    join_path(logs_dir, sanitized(serial) + ".log"@)
}

/// Path of the log file of a device inside the logs directory.
pub fn log_file_path(logs_dir: &str, serial: &str) -> (p: String)
    ensures
        p@ == log_file_of(logs_dir@, serial@),
{
    let name = sanitize_serial(serial).concat(".log");
    let dir = to_chars(logs_dir);
    let n = dir.len();
    if n == 0 {
        name
    } else if dir[n - 1] == '/' {
        let mut p = logs_dir.to_owned();
        p.append(name.as_str());
        p
    } else {
        let mut p = logs_dir.to_owned();
        push_char(&mut p, '/');
        p.append(name.as_str());
        p
    }
}

/// Declares tokio's `watch::Sender`, the handle that tells a stream to stop.
#[verifier::external_type_specification]
#[verifier::external_body]
#[verifier::reject_recursive_types(T)]
pub struct ExWatchSender<T>(tokio::sync::watch::Sender<T>);

/// Calls `tokio::sync::watch::Sender::send` with `true` on the handle it is
/// given, which it takes and then drops. Whether a receiver was still there
/// to see the value depends on the running task, so nothing is stated of the
/// outcome.
#[verifier::external_body]
fn signal_stop(stop: tokio::sync::watch::Sender<bool>) {
    let _ = stop.send(true);
}

/// The logcat streams that are running, each with the handle that stops it.
pub struct StreamRegistry {
    pub streams: Vec<(String, tokio::sync::watch::Sender<bool>)>,
}

impl StreamRegistry {
    /// The serials whose stream is running.
    pub open spec fn serials(&self) -> Seq<Seq<char>> {
        self.streams@.map_values(|e: (String, tokio::sync::watch::Sender<bool>)| e.0@)
    }

    /// At most one stream per serial.
    pub open spec fn wf(&self) -> bool {
        self.serials().no_duplicates()
    }

    /// Position of the stream of `serial` (its entry, with its handle), or -1.
    pub open spec fn index_of(&self, serial: Seq<char>) -> int {
        index_in(self.serials(), serial)
    }

    pub fn new() -> (r: Self)
        ensures
            r.streams@.len() == 0,
            r.serials().len() == 0,
            r.wf(),
    {
        let r = StreamRegistry { streams: Vec::new() };
        assert(r.serials() =~= Seq::<Seq<char>>::empty());
        r
    }

    /// Position of the stream of `serial`, if one runs.
    pub fn position(&self, serial: &str) -> (r: Option<usize>)
        ensures
            r matches Some(i) ==> i as int == self.index_of(serial@) && i < self.serials().len()
                && self.serials()[i as int] == serial@,
            r is None ==> self.index_of(serial@) == -1 && !self.serials().contains(serial@),
    {
        let key = serial.to_owned();
        let n = self.streams.len();
        let mut i: usize = 0;
        while i < n
            invariant
                i <= n,
                n == self.streams@.len(),
                key@ == serial@,
                forall|j: int| 0 <= j < i ==> #[trigger] self.serials()[j] != serial@,
            decreases n - i,
        {
            if self.streams[i].0 == key {
                proof {
                    lemma_first_index(self.serials(), serial@, i as int);
                }
                return Some(i);
            }
            i = i + 1;
        }
        proof {
            lemma_index_in(self.serials(), serial@);
            if self.serials().contains(serial@) {
                let j = choose|j: int| 0 <= j < self.serials().len() && self.serials()[j] == serial@;
                assert(self.serials()[j] != serial@);
            }
        }
        None
    }

    /// Records a newly started stream with its handle. Returns `false`, and
    /// leaves the registry as it was, when a stream for the serial already
    /// runs.
    pub fn register(&mut self, serial: String, stop: tokio::sync::watch::Sender<bool>) -> (added: bool)
        requires
            old(self).wf(),
        ensures
            final(self).wf(),
            added == !old(self).serials().contains(serial@),
            added ==> final(self).streams@ == old(self).streams@.push((serial, stop)),
            !added ==> final(self).streams@ == old(self).streams@,
            added ==> final(self).serials() == old(self).serials().push(serial@),
            !added ==> final(self).serials() == old(self).serials(),
    {
        match self.position(serial.as_str()) {
            Some(_) => false,
            None => {
                let ghost before = self.serials();
                self.streams.push((serial, stop));
                assert(self.serials() =~= before.push(serial@));
                proof {
                    assert forall|i: int, j: int|
                        0 <= i < j < self.serials().len() implies self.serials()[i]
                        != self.serials()[j] by {
                        if j == before.len() {
                            assert(before.contains(before[i]));
                        }
                    }
                }
                true
            },
        }
    }

    /// Forgets the stream of `serial` without signalling it (its task
    /// ended): its entry, handle included, leaves and the others stay in
    /// order.
    pub fn unregister(&mut self, serial: &str) -> (removed: bool)
        requires
            old(self).wf(),
        ensures
            final(self).wf(),
            removed == old(self).serials().contains(serial@),
            removed ==> final(self).streams@ == old(self).streams@.remove(old(self).index_of(serial@)),
            !removed ==> final(self).streams@ == old(self).streams@,
            !final(self).serials().contains(serial@),
            forall|s: Seq<char>|
                s != serial@ ==> (final(self).serials().contains(s) <==> old(self).serials().contains(s)),
    {
        match self.position(serial) {
            Some(i) => {
                let ghost before = self.serials();
                let _ = self.streams.remove(i);
                assert(self.serials() =~= before.remove(i as int));
                proof {
                    lemma_remove_unique(before, i as int);
                }
                true
            },
            None => false,
        }
    }
}

proof fn lemma_remove_unique(s: Seq<Seq<char>>, i: int)
    requires
        s.no_duplicates(),
        0 <= i < s.len(),
    ensures
        s.remove(i).no_duplicates(),
        !s.remove(i).contains(s[i]),
        forall|x: Seq<char>| x != s[i] ==> (s.remove(i).contains(x) <==> s.contains(x)),
{
    let r = s.remove(i);
    assert forall|a: int, b: int| 0 <= a < b < r.len() implies r[a] != r[b] by {
        let a2 = if a < i { a } else { a + 1 };
        let b2 = if b < i { b } else { b + 1 };
        assert(r[a] == s[a2]);
        assert(r[b] == s[b2]);
    }
    if r.contains(s[i]) {
        let k = choose|k: int| 0 <= k < r.len() && r[k] == s[i];
        let k2 = if k < i { k } else { k + 1 };
        assert(r[k] == s[k2]);
    }
    assert forall|x: Seq<char>| x != s[i] implies (r.contains(x) <==> s.contains(x)) by {
        if r.contains(x) {
            let k = choose|k: int| 0 <= k < r.len() && r[k] == x;
            let k2 = if k < i { k } else { k + 1 };
            assert(r[k] == s[k2]);
        }
        if s.contains(x) {
            let k = choose|k: int| 0 <= k < s.len() && s[k] == x;
            if k < i {
                assert(r[k] == s[k]);
            } else {
                assert(r[k - 1] == s[k]);
            }
        }
    }
}

/// Whether a logcat stream for `serial` is running.
pub fn is_logcat_streaming(registry: &StreamRegistry, serial: &str) -> (b: bool)
    ensures
        b == registry.serials().contains(serial@),
{
    registry.position(serial).is_some()
}

/// Stops the logcat stream of `serial`: its entry leaves the registry (the
/// others stay in order) and the handle stored with it is told to stop.
/// Returns whether such a stream was running.
pub fn stop_logcat_stream(registry: &mut StreamRegistry, serial: &str) -> (stopped: bool)
    requires
        old(registry).wf(),
    ensures
        final(registry).wf(),
        stopped == old(registry).serials().contains(serial@),
        stopped ==> final(registry).streams@ == old(registry).streams@.remove(
            old(registry).index_of(serial@),
        ),
        !stopped ==> final(registry).streams@ == old(registry).streams@,
        !final(registry).serials().contains(serial@),
        forall|s: Seq<char>|
            s != serial@ ==> (final(registry).serials().contains(s) <==> old(registry).serials().contains(s)),
{
    match registry.position(serial) {
        Some(i) => {
            let ghost before = registry.serials();
            let (_, stop) = registry.streams.remove(i);
            signal_stop(stop);
            assert(registry.serials() =~= before.remove(i as int));
            proof {
                lemma_remove_unique(before, i as int);
            }
            true
        },
        None => false,
    }
}

/// Records a logcat stream for `serial` that is about to start, with the
/// handle that stops it. Returns `false`, changing nothing, when a stream for
/// the serial runs already: the caller then starts none.
pub fn start_logcat_stream(
    registry: &mut StreamRegistry,
    serial: String,
    stop: tokio::sync::watch::Sender<bool>,
) -> (started: bool)
    requires
        old(registry).wf(),
    ensures
        final(registry).wf(),
        started == !old(registry).serials().contains(serial@),
        started ==> final(registry).streams@ == old(registry).streams@.push((serial, stop)),
        !started ==> final(registry).streams@ == old(registry).streams@,
        started ==> final(registry).serials() == old(registry).serials().push(serial@),
        !started ==> final(registry).serials() == old(registry).serials(),
{
    registry.register(serial, stop)
}

/// Stops the stream of `serial` if one runs (as `stop_logcat_stream` does).
/// Returns `true` when none ran: the caller then starts one.
pub fn toggle_logcat_stream(registry: &mut StreamRegistry, serial: &str) -> (start: bool)
    requires
        old(registry).wf(),
    ensures
        final(registry).wf(),
        start == !old(registry).serials().contains(serial@),
        start ==> final(registry).streams@ == old(registry).streams@,
        !start ==> final(registry).streams@ == old(registry).streams@.remove(
            old(registry).index_of(serial@),
        ),
        start ==> final(registry).serials() == old(registry).serials(),
        !start ==> !final(registry).serials().contains(serial@) && forall|s: Seq<char>|
            s != serial@ ==> (final(registry).serials().contains(s) <==> old(
                registry,
            ).serials().contains(s)),
{
    if is_logcat_streaming(registry, serial) {
        stop_logcat_stream(registry, serial);
        false
    } else {
        true
    }
}

} // verus!
