use vstd::prelude::*;

verus! {

#[verifier::external_type_specification]
#[verifier::external_body]
pub struct ExNaiveDateTime(chrono::NaiveDateTime);

#[verifier::external_type_specification]
#[verifier::external_body]
pub struct ExSystemTime(std::time::SystemTime);

/// Reads the system clock with `std::time::SystemTime::now()`. Nothing is
/// stated of the reading: it depends on the machine and the moment.
#[verifier::external_body]
fn clock_now() -> std::time::SystemTime {
    std::time::SystemTime::now()
}

/// Name for how long after 1970 (`UNIX_EPOCH`) a clock reading lies, as
/// `SystemTime::duration_since` gives it: `None` where the reading is
/// earlier.
pub uninterp spec fn since_epoch(t: std::time::SystemTime) -> Option<core::time::Duration>;

/// Calls `t.duration_since(UNIX_EPOCH)`; its error becomes `None`. Claimed:
/// the result is `since_epoch(*t)`.
#[verifier::external_body]
fn duration_since_epoch(t: &std::time::SystemTime) -> (r: Option<core::time::Duration>)
    ensures
        r == since_epoch(*t),
{
    t.duration_since(std::time::UNIX_EPOCH).ok()
}

/// Name for the whole seconds of a duration, `Duration::as_secs`.
pub uninterp spec fn duration_secs(d: core::time::Duration) -> u64;

/// Calls `Duration::as_secs`. Claimed: the result is `duration_secs(*d)`.
#[verifier::external_body]
fn whole_secs(d: &core::time::Duration) -> (r: u64)
    ensures
        r == duration_secs(*d),
{
    d.as_secs()
}

/// Name for the nanoseconds of a duration's last, partial second,
/// `Duration::subsec_nanos`.
pub uninterp spec fn duration_subsec_nanos(d: core::time::Duration) -> u32;

/// Calls `Duration::subsec_nanos`. Claimed: the result is
/// `duration_subsec_nanos(*d)`, and below one billion, as the method
/// documents.
#[verifier::external_body]
fn subsec_nanos(d: &core::time::Duration) -> (r: u32)
    ensures
        r == duration_subsec_nanos(*d),
        r < 1_000_000_000,
{
    d.subsec_nanos()
}

/// The system clock read as the time since 1970, in whole seconds and the
/// nanoseconds of the last second; `None` where the clock reads earlier.
pub fn unix_time() -> (r: Option<(u64, u32)>)
    ensures
        r matches Some((_, nanos)) ==> nanos < 1_000_000_000,
{
    let now = clock_now();
    match duration_since_epoch(&now) {
        Some(d) => Some((whole_secs(&d), subsec_nanos(&d))),
        None => None,
    }
}

/// Name for what chrono's `DateTime::<Utc>::from_timestamp(secs, nanos)`
/// gives, read as a naive date and time: `None` where the timestamp is out
/// of chrono's range or the nanoseconds are invalid.
pub uninterp spec fn naive_at_timestamp(secs: i64, nanos: u32) -> Option<chrono::NaiveDateTime>;

/// Calls chrono's `DateTime::<Utc>::from_timestamp(secs, nanos)` and reads
/// the result with `naive_utc`. Claimed: the result is
/// `naive_at_timestamp(secs, nanos)`.
#[verifier::external_body]
fn naive_from_timestamp(secs: i64, nanos: u32) -> (r: Option<chrono::NaiveDateTime>)
    ensures
        r == naive_at_timestamp(secs, nanos),
{
    match chrono::DateTime::from_timestamp(secs, nanos) {
        Some(d) => Some(d.naive_utc()),
        None => None,
    }
}

/// The UTC date and time `secs` seconds and `nanos` nanoseconds after 1970,
/// as chrono reads such a timestamp; `None` where the seconds do not fit
/// chrono's signed count, or chrono refuses them.
pub fn naive_from_unix(secs: u64, nanos: u32) -> (r: Option<chrono::NaiveDateTime>)
    ensures
        r == (if secs <= 0x7fff_ffff_ffff_ffff {
            naive_at_timestamp(secs as i64, nanos)
        } else {
            None
        }),
{
    if secs <= 0x7fff_ffff_ffff_ffffu64 {
        naive_from_timestamp(secs as i64, nanos)
    } else {
        None
    }
}

/// Whether `t` is the date and time of some timestamp at or after 1970,
/// with valid nanoseconds.
pub open spec fn is_unix_time(t: chrono::NaiveDateTime) -> bool {
    exists|s: i64, n: u32|
        #![trigger naive_at_timestamp(s, n)]
        s >= 0 && n < 1_000_000_000 && naive_at_timestamp(s, n) == Some(t)
}

/// The current UTC time, as chrono's `Utc::now` reads it: the system clock
/// read as a timestamp; `None` where the clock reads before 1970 or beyond
/// what chrono can represent.
pub fn utc_now() -> (r: Option<chrono::NaiveDateTime>)
    ensures
        r matches Some(t) ==> is_unix_time(t),
{
    match unix_time() {
        Some((secs, nanos)) => {
            let r = naive_from_unix(secs, nanos);
            if secs <= 0x7fff_ffff_ffff_ffffu64 {
                assert(naive_at_timestamp(secs as i64, nanos) == r);
            }
            r
        },
        None => None,
    }
}

/// A point in time, UTC.
pub struct MyNaiveDateTime(pub chrono::NaiveDateTime);

impl MyNaiveDateTime {
    /// The current time; `None` where the clock cannot be read as a time.
    pub fn now() -> (r: Option<Self>)
        ensures
            r matches Some(m) ==> is_unix_time(m.0),
    {
        match utc_now() {
            Some(t) => Some(MyNaiveDateTime(t)),
            None => None,
        }
    }
}

/// The knowledge both parties hold in one protocol of a game.
pub struct Protocol {
    pub game_id: usize,
    pub protocol_number: usize,
    pub initiator_knowledge: String,
    pub responder_knowledge: String,
}

impl Default for Protocol {
    fn default() -> (p: Self)
        ensures
            p.game_id == 0,
            p.protocol_number == 0,
            p.initiator_knowledge@ == Seq::<char>::empty(),
            p.responder_knowledge@ == Seq::<char>::empty(),
    {
        Protocol {
            game_id: 0,
            protocol_number: 0,
            initiator_knowledge: String::new(),
            responder_knowledge: String::new(),
        }
    }
}

/// A registered player.
pub struct Player {
    pub id: u64,
    pub name: String,
    pub token: String,
    pub lastseen_at: chrono::NaiveDateTime,
}

impl Player {
    /// A player registered under this id and name, last seen at
    /// `lastseen_at`, with no token yet.
    pub fn new(id: u64, name: String, lastseen_at: chrono::NaiveDateTime) -> (p: Self)
        ensures
            p.id == id,
            p.name@ == name@,
            p.token@ == Seq::<char>::empty(),
            p.lastseen_at == lastseen_at,
    {
        Player { id, name, token: String::new(), lastseen_at }
    }
}

/// One move of a player in a protocol of a game.
pub struct Move {
    pub game_id: usize,
    pub protocol_number: usize,
    pub move_number: usize,
    pub player_id: usize,
    pub protocol_message: String,
    pub new_knowledge: String,
}

impl Default for Move {
    fn default() -> (m: Self)
        ensures
            m.game_id == 0,
            m.protocol_number == 0,
            m.move_number == 0,
            m.player_id == 0,
            m.protocol_message@ == Seq::<char>::empty(),
            m.new_knowledge@ == Seq::<char>::empty(),
    {
        Move {
            game_id: 0,
            protocol_number: 0,
            move_number: 0,
            player_id: 0,
            protocol_message: String::new(),
            new_knowledge: String::new(),
        }
    }
}

/// A game between an initiator and a responder.
pub struct Game {
    pub id: usize,
    pub created_at: MyNaiveDateTime,
    pub finished_at: Option<MyNaiveDateTime>,
    pub creator_id: usize,
    pub initiator: String,
    pub responder: String,
    pub initial_knowledge_initiator: String,
    pub initial_knowledge_responder: String,
    pub task: String,
    pub joining_code: String,
    pub round: usize,
    pub rounds: usize,
    pub started: bool,
    pub finished: bool,
}

impl Game {
    /// A game created at `created_at`, with no settings yet.
    pub fn new(created_at: MyNaiveDateTime) -> (g: Self)
        ensures
            g.id == 0,
            g.finished_at is None,
            g.creator_id == 0,
            g.initiator@ == Seq::<char>::empty(),
            g.responder@ == Seq::<char>::empty(),
            g.initial_knowledge_initiator@ == Seq::<char>::empty(),
            g.initial_knowledge_responder@ == Seq::<char>::empty(),
            g.task@ == Seq::<char>::empty(),
            g.joining_code@ == Seq::<char>::empty(),
            g.round == 0,
            g.rounds == 0,
            !g.started,
            !g.finished,
    {
        Game {
            id: 0,
            created_at,
            finished_at: None,
            creator_id: 0,
            initiator: String::new(),
            responder: String::new(),
            initial_knowledge_initiator: String::new(),
            initial_knowledge_responder: String::new(),
            task: String::new(),
            joining_code: String::new(),
            round: 0,
            rounds: 0,
            started: false,
            finished: false,
        }
    }
}

/// A player's seat in a game.
pub struct GamePlayer {
    pub game_id: usize,
    pub player_id: usize,
    pub position: usize,
}

impl Default for GamePlayer {
    fn default() -> (p: Self)
        ensures
            p.game_id == 0,
            p.player_id == 0,
            p.position == 0,
    {
        GamePlayer { game_id: 0, player_id: 0, position: 0 }
    }
}

} // verus!
