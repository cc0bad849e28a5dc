//! The radio playback controller.
//!
//! The controller owns a cursor into a fixed station catalog and three
//! shared cells (lifecycle state, a cancellation flag, a volume level)
//! that a background playback worker polls. This module is the pure
//! state machine: every public operation says exactly how the
//! controller's fields move, and the session protocol says what a
//! worker writes on every exit path. The unverified shell performs the
//! commands these operations return (spawn a worker thread, halt and
//! join it) and reports the worker's observations back.
use vstd::prelude::*;

verus! {

/// Observable lifecycle of the playback controller.
#[derive(Clone, Copy, Debug, PartialEq, Eq, Structural)]
pub enum PlaybackState {
    Stopped,
    Loading,
    Playing,
    Error,
}

/// States in which no new session may start: a worker is live.
pub open spec fn is_live(s: PlaybackState) -> bool {
    s is Loading || s is Playing
}

/// States from which `play` starts a fresh session.
pub open spec fn is_idle(s: PlaybackState) -> bool {
    s is Stopped || s is Error
}

/// A named stream endpoint; the catalog is compiled-in constant data.
pub struct Station {
    pub name: &'static str,
    pub url: &'static str,
}

/// The catalog the controller is built with.
pub open spec fn catalog_ok(s: Seq<Station>) -> bool {
    &&& s.len() == 5
    &&& s[0].name@ == "Chillout"@
    &&& s[0].url@ == "https://streams.ilovemusic.de/iloveradio17.mp3"@
    &&& s[1].name@ == "Lounge"@
    &&& s[1].url@ == "https://streams.ilovemusic.de/iloveradio2.mp3"@
    &&& s[2].name@ == "Relax FM"@
    &&& s[2].url@ == "https://stream.relaxfm.ru/relaxfm192.mp3"@
    &&& s[3].name@ == "Smooth Jazz"@
    &&& s[3].url@ == "https://streaming.radio.co/s774887f7b/listen"@
    &&& s[4].name@ == "Ambient"@
    &&& s[4].url@ == "https://streams.ilovemusic.de/iloveradio6.mp3"@
}

/// The ordered list of stream endpoints the controller cycles through.
pub fn stations() -> (v: Vec<Station>)
    ensures
        catalog_ok(v@),
{
    let mut v: Vec<Station> = Vec::new();
    v.push(Station { name: "Chillout", url: "https://streams.ilovemusic.de/iloveradio17.mp3" });
    v.push(Station { name: "Lounge", url: "https://streams.ilovemusic.de/iloveradio2.mp3" });
    v.push(Station { name: "Relax FM", url: "https://stream.relaxfm.ru/relaxfm192.mp3" });
    v.push(Station { name: "Smooth Jazz", url: "https://streaming.radio.co/s774887f7b/listen" });
    v.push(Station { name: "Ambient", url: "https://streams.ilovemusic.de/iloveradio6.mp3" });
    v
}

/// Wrap-around successor over a catalog of `len` stations.
pub fn next_index(i: usize, len: usize) -> (r: usize)
    requires
        1 <= len,
        i < len,
    ensures
        r == (i + 1) % (len as int),
        r < len,
{
    (i + 1) % len
}

/// Wrap-around predecessor over a catalog of `len` stations.
pub fn prev_index(i: usize, len: usize) -> (r: usize)
    requires
        1 <= len,
        i < len,
    ensures
        i == 0 ==> r == len - 1,
        i > 0 ==> r == i - 1,
        r < len,
{
    if i == 0 {
        len - 1
    } else {
        i - 1
    }
}

/// The numeric encoding of a lifecycle state, as stored in the shared
/// atomic cell that the worker thread and the controller both read.
pub open spec fn spec_state_code(s: PlaybackState) -> u8 {
    match s {
        PlaybackState::Stopped => 0,
        PlaybackState::Loading => 1,
        PlaybackState::Playing => 2,
        PlaybackState::Error => 3,
    }
}

pub fn state_code(s: PlaybackState) -> (c: u8)
    ensures
        c == spec_state_code(s),
{
    match s {
        PlaybackState::Stopped => 0,
        PlaybackState::Loading => 1,
        PlaybackState::Playing => 2,
        PlaybackState::Error => 3,
    }
}

/// Decoding of the shared cell; codes outside the four states read as
/// `Stopped`, though no writer ever stores one.
pub open spec fn spec_state_from_code(c: u8) -> PlaybackState {
    if c == 1 {
        PlaybackState::Loading
    } else if c == 2 {
        PlaybackState::Playing
    } else if c == 3 {
        PlaybackState::Error
    } else {
        PlaybackState::Stopped
    }
}

pub fn state_from_code(c: u8) -> (s: PlaybackState)
    ensures
        s == spec_state_from_code(c),
{
    if c == 1 {
        PlaybackState::Loading
    } else if c == 2 {
        PlaybackState::Playing
    } else if c == 3 {
        PlaybackState::Error
    } else {
        PlaybackState::Stopped
    }
}

/// Encoding then decoding a state gives it back: the two sides of the
/// shared cell agree on every state.
pub proof fn lemma_state_code_roundtrip(s: PlaybackState)
    ensures
        spec_state_from_code(spec_state_code(s)) == s,
{
}

/// What the shell must do after a controller operation: start a fresh
/// worker thread, or set the cancellation flag and join the old one.
#[derive(Clone, Copy, Debug, PartialEq, Eq, Structural)]
pub enum RadioCmd {
    SpawnWorker,
    HaltWorker,
    Nothing,
}

/// The controller: catalog cursor, the three shared cells as the
/// controller last wrote or observed them, and whether a worker
/// handle is held.
pub struct Radio {
    pub current_station: usize,
    pub stations: Vec<Station>,
    pub state: PlaybackState,
    pub cancel: bool,
    pub volume: u8,
    pub worker_live: bool,
}

impl Radio {
    /// The cursor stays inside the never-empty catalog and the volume
    /// inside its range.
    pub open spec fn wf(self) -> bool {
        &&& 1 <= self.stations@.len()
        &&& self.current_station < self.stations@.len()
        &&& self.volume <= 100
    }
}

/// `play`: a no-op while a session is live; otherwise clear the
/// cancellation flag, mark `Loading`, and hold a fresh worker.
pub open spec fn spec_play(r: Radio) -> Radio {
    if is_live(r.state) {
        r
    } else {
        Radio { state: PlaybackState::Loading, cancel: false, worker_live: true, ..r }
    }
}

/// `stop`: set the cancellation flag, drop the worker, read `Stopped`.
pub open spec fn spec_stop(r: Radio) -> Radio {
    Radio { state: PlaybackState::Stopped, cancel: true, worker_live: false, ..r }
}

/// `toggle`: `play` from an idle state, `stop` from a live one.
pub open spec fn spec_toggle(r: Radio) -> Radio {
    if is_idle(r.state) {
        spec_play(r)
    } else {
        spec_stop(r)
    }
}

impl Radio {
    /// A fresh controller: first station, stopped, full volume, no worker.
    pub fn new() -> (r: Radio)
        ensures
            r.wf(),
            catalog_ok(r.stations@),
            r.current_station == 0,
            r.state is Stopped,
            !r.cancel,
            r.volume == 100,
            !r.worker_live,
    {
        Radio {
            current_station: 0,
            stations: stations(),
            state: PlaybackState::Stopped,
            cancel: false,
            volume: 100,
            worker_live: false,
        }
    }

    /// Store a volume level, clamped to the upper bound of the range.
    pub fn set_volume(&mut self, vol: u8)
        requires
            old(self).wf(),
        ensures
            final(self).wf(),
            final(self).volume == (if vol > 100 { 100u8 } else { vol }),
            *final(self) == (Radio { volume: final(self).volume, ..*old(self) }),
    {
        self.volume = if vol > 100 { 100 } else { vol };
    }

    /// The last stored volume level; the worker polls this cell.
    pub fn volume(&self) -> (v: u8)
        ensures
            v == self.volume,
    {
        self.volume
    }

    /// The station the cursor points at.
    pub fn station(&self) -> (s: &Station)
        requires
            self.wf(),
        ensures
            *s == self.stations@[self.current_station as int],
    {
        &self.stations[self.current_station]
    }

    pub fn is_loading(&self) -> (b: bool)
        ensures
            b == (self.state is Loading),
    {
        self.state == PlaybackState::Loading
    }

    pub fn is_playing(&self) -> (b: bool)
        ensures
            b == (self.state is Playing),
    {
        self.state == PlaybackState::Playing
    }

    pub fn is_error(&self) -> (b: bool)
        ensures
            b == (self.state is Error),
    {
        self.state == PlaybackState::Error
    }

    /// Record a lifecycle transition the worker published through the
    /// shared cell (`Playing` on success, `Error` on failure).
    pub fn observe_state(&mut self, s: PlaybackState)
        requires
            old(self).wf(),
        ensures
            final(self).wf(),
            *final(self) == (Radio { state: s, ..*old(self) }),
    {
        self.state = s;
    }

    /// Start a session unless one is live. Commands a worker spawn
    /// exactly when the controller was idle.
    pub fn play(&mut self) -> (cmd: RadioCmd)
        requires
            old(self).wf(),
        ensures
            final(self).wf(),
            *final(self) == spec_play(*old(self)),
            is_live(old(self).state) ==> cmd is Nothing && *final(self) == *old(self),
            is_idle(old(self).state) ==> cmd is SpawnWorker && final(self).state is Loading
                && !final(self).cancel && final(self).worker_live,
            final(self).current_station == old(self).current_station,
            final(self).volume == old(self).volume,
            final(self).stations == old(self).stations,
    {
        if self.state == PlaybackState::Loading || self.state == PlaybackState::Playing {
            return RadioCmd::Nothing;
        }
        self.cancel = false;
        self.state = PlaybackState::Loading;
        self.worker_live = true;
        RadioCmd::SpawnWorker
    }

    /// End the session: set the cancellation flag, give up the worker
    /// (the shell joins it before this returns to the foreground), and
    /// settle in `Stopped`. Idempotent: safe with no live worker.
    pub fn stop(&mut self)
        requires
            old(self).wf(),
        ensures
            final(self).wf(),
            *final(self) == spec_stop(*old(self)),
            final(self).state is Stopped,
            final(self).cancel,
            !final(self).worker_live,
            final(self).current_station == old(self).current_station,
            final(self).volume == old(self).volume,
            final(self).stations == old(self).stations,
    {
        self.cancel = true;
        self.worker_live = false;
        self.state = PlaybackState::Stopped;
    }

    /// `play` when idle, `stop` when live.
    pub fn toggle(&mut self) -> (cmd: RadioCmd)
        requires
            old(self).wf(),
        ensures
            final(self).wf(),
            *final(self) == spec_toggle(*old(self)),
            is_idle(old(self).state) ==> cmd is SpawnWorker && final(self).state is Loading,
            is_live(old(self).state) ==> cmd is HaltWorker && final(self).state is Stopped,
    {
        if self.state == PlaybackState::Stopped || self.state == PlaybackState::Error {
            self.play()
        } else {
            self.stop();
            RadioCmd::HaltWorker
        }
    }

    /// Stop the running session, advance the cursor with wrap-around,
    /// and command a fresh session only if one had been active.
    pub fn next_station(&mut self) -> (resume: bool)
        requires
            old(self).wf(),
        ensures
            final(self).wf(),
            resume == is_live(old(self).state),
            final(self).current_station == (old(self).current_station + 1) % (old(
                self,
            ).stations@.len() as int),
            final(self).stations == old(self).stations,
            final(self).volume == old(self).volume,
            resume ==> final(self).state is Loading && final(self).worker_live
                && !final(self).cancel,
            !resume ==> final(self).state is Stopped && !final(self).worker_live
                && final(self).cancel,
    {
        let was_active = self.is_playing() || self.is_loading();
        self.stop();
        self.current_station = next_index(self.current_station, self.stations.len());
        if was_active {
            self.play();
        }
        was_active
    }

    /// Stop the running session, retreat the cursor with wrap-around,
    /// and command a fresh session only if one had been active.
    pub fn prev_station(&mut self) -> (resume: bool)
        requires
            old(self).wf(),
        ensures
            final(self).wf(),
            resume == is_live(old(self).state),
            old(self).current_station == 0 ==> final(self).current_station == old(
                self,
            ).stations@.len() - 1,
            old(self).current_station > 0 ==> final(self).current_station == old(
                self,
            ).current_station - 1,
            final(self).stations == old(self).stations,
            final(self).volume == old(self).volume,
            resume ==> final(self).state is Loading && final(self).worker_live
                && !final(self).cancel,
            !resume ==> final(self).state is Stopped && !final(self).worker_live
                && final(self).cancel,
    {
        let was_active = self.is_playing() || self.is_loading();
        self.stop();
        self.current_station = prev_index(self.current_station, self.stations.len());
        if was_active {
            self.play();
        }
        was_active
    }
}

/// After `stop` returns, whatever came before, no worker is held and
/// the state reads `Stopped`.
pub proof fn lemma_stop_always_stops(r: Radio)
    ensures
        spec_stop(r).state is Stopped,
        !spec_stop(r).worker_live,
        spec_stop(r).cancel,
{
}

/// `play` while a session is live changes nothing: no second worker.
pub proof fn lemma_play_noop_while_live(r: Radio)
    requires
        is_live(r.state),
    ensures
        spec_play(r) == r,
{
}

/// `toggle` alternates between the idle states and the live ones: from
/// idle it lands in `Loading`, from live it lands in `Stopped`, and two
/// toggles from idle come back to `Stopped`.
pub proof fn lemma_toggle_alternates(r: Radio)
    ensures
        is_idle(r.state) ==> is_live(spec_toggle(r).state),
        is_live(r.state) ==> is_idle(spec_toggle(r).state),
        is_idle(r.state) ==> spec_toggle(spec_toggle(r)).state is Stopped,
{
}

/// What a playback worker does at a checkpoint of session setup,
/// given the cancellation flag it just read and whether the stage
/// behind it succeeded. Cancellation wins: the worker exits without
/// writing the state cell, and the controller's `stop` settles the
/// state in `Stopped`. An uncancelled failure writes `Error`.
#[derive(Clone, Copy, Debug, PartialEq, Eq, Structural)]
pub enum StageVerdict {
    Abort,
    Fail,
    Advance,
}

pub open spec fn spec_stage_verdict(cancelled: bool, ok: bool) -> StageVerdict {
    if cancelled {
        StageVerdict::Abort
    } else if !ok {
        StageVerdict::Fail
    } else {
        StageVerdict::Advance
    }
}

pub fn stage_verdict(cancelled: bool, ok: bool) -> (v: StageVerdict)
    ensures
        v == spec_stage_verdict(cancelled, ok),
{
    if cancelled {
        StageVerdict::Abort
    } else if !ok {
        StageVerdict::Fail
    } else {
        StageVerdict::Advance
    }
}

/// One playback attempt, reduced to what decides its outcome: whether
/// each setup stage succeeded and whether the cancellation flag was
/// seen set at each checkpoint. The stages come in the order the
/// worker runs them: open the audio output, acquire the HTTP stream,
/// set up the buffered download, set up the decoder.
pub struct SessionConditions {
    pub output_ok: bool,
    pub cancelled_before_acquire: bool,
    pub acquire_ok: bool,
    pub cancelled_before_buffer: bool,
    pub buffer_ok: bool,
    pub cancelled_before_decode: bool,
    pub decode_ok: bool,
}

/// How a playback attempt ends.
///
/// `Silent`: the worker saw the cancellation flag and exited without
/// writing the state cell or starting the sink; the controller's
/// `stop` writes `Stopped`. `Failed`: a stage failed, the worker wrote
/// `Error` and never started the sink. `Played`: every stage passed,
/// the worker wrote `Playing` and the sink is rendering.
#[derive(Clone, Copy, Debug, PartialEq, Eq, Structural)]
pub enum SessionEnd {
    Silent,
    Failed,
    Played,
}

/// The outcome of one session: the first cancellation checkpoint or
/// stage failure decides; the sink plays only when nothing did.
pub open spec fn spec_session_end(c: SessionConditions) -> SessionEnd {
    if !c.output_ok {
        SessionEnd::Failed
    } else if c.cancelled_before_acquire {
        SessionEnd::Silent
    } else if !c.acquire_ok {
        SessionEnd::Failed
    } else if c.cancelled_before_buffer {
        SessionEnd::Silent
    } else if !c.buffer_ok {
        SessionEnd::Failed
    } else if c.cancelled_before_decode {
        SessionEnd::Silent
    } else if !c.decode_ok {
        SessionEnd::Failed
    } else {
        SessionEnd::Played
    }
}

pub fn session_end(c: &SessionConditions) -> (e: SessionEnd)
    ensures
        e == spec_session_end(*c),
{
    if !c.output_ok {
        SessionEnd::Failed
    } else if c.cancelled_before_acquire {
        SessionEnd::Silent
    } else if !c.acquire_ok {
        SessionEnd::Failed
    } else if c.cancelled_before_buffer {
        SessionEnd::Silent
    } else if !c.buffer_ok {
        SessionEnd::Failed
    } else if c.cancelled_before_decode {
        SessionEnd::Silent
    } else if !c.decode_ok {
        SessionEnd::Failed
    } else {
        SessionEnd::Played
    }
}

/// The state cell write a session's end stands for: `Silent` leaves
/// the cell alone, `Failed` writes `Error`, `Played` writes `Playing`.
pub open spec fn spec_session_state_write(e: SessionEnd) -> Option<PlaybackState> {
    match e {
        SessionEnd::Silent => None,
        SessionEnd::Failed => Some(PlaybackState::Error),
        SessionEnd::Played => Some(PlaybackState::Playing),
    }
}

/// A session that fails acquisition ends in `Error` and never reaches
/// `Playing`.
pub proof fn lemma_failed_acquisition_never_plays(c: SessionConditions)
    requires
        !c.acquire_ok,
    ensures
        !(spec_session_end(c) is Played),
        c.output_ok && !c.cancelled_before_acquire ==> spec_session_end(c) is Failed,
{
}

/// A session whose cancellation flag is set before acquisition
/// completes exits silently: it writes neither `Error` nor `Playing`,
/// never starts the sink, and the controller's `stop` leaves the
/// state `Stopped`.
pub proof fn lemma_cancelled_session_is_silent(c: SessionConditions, r: Radio)
    requires
        c.output_ok,
        c.cancelled_before_acquire,
    ensures
        spec_session_end(c) is Silent,
        spec_session_state_write(spec_session_end(c)) is None,
        spec_stop(r).state is Stopped,
{
}

/// The sink renders only when every stage passed and no checkpoint saw
/// the cancellation flag: the one path into `Playing`.
pub proof fn lemma_played_needs_everything(c: SessionConditions)
    ensures
        spec_session_end(c) is Played <==> (c.output_ok && !c.cancelled_before_acquire
            && c.acquire_ok && !c.cancelled_before_buffer && c.buffer_ok
            && !c.cancelled_before_decode && c.decode_ok),
{
}

/// The level the countdown fade writes into the shared volume cell
/// when `secs_left` seconds remain on the timer.
pub open spec fn spec_fade_volume(secs_left: u64) -> u8 {
    if secs_left == 3 {
        60u8
    } else if secs_left == 2 {
        40u8
    } else if secs_left == 1 {
        20u8
    } else {
        10u8
    }
}

pub fn fade_volume(secs_left: u64) -> (v: u8)
    ensures
        v == spec_fade_volume(secs_left),
        v <= 100,
{
    if secs_left == 3 {
        60
    } else if secs_left == 2 {
        40
    } else if secs_left == 1 {
        20
    } else {
        10
    }
}

} // verus!
