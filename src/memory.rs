//! A unit's persisted record, its text form, and the pruning of records of
//! units that are gone.

use vstd::prelude::*;
use crate::role::{name_of, CreepType};
use crate::target::{goal_view, target_id, CreepTarget, TargetView};
use crate::text::{
    eat, lemma_prefix_char, lemma_prefix_split, lemma_quoted_unique, plain, prefix_at, quoted,
    read_quoted,
};

verus! {

/// Destination of a move the host cached for a unit.
#[derive(Clone, Debug, Default)]
pub struct CreepMemoryMoveDest {
    pub x: u64,
    pub y: u64,
    pub room: String,
}

/// The host's own cache of a unit's last move: when it was made and where to.
#[derive(Clone, Debug, Default)]
pub struct CreepMemoryMove {
    pub time: u128,
    pub dest: Option<CreepMemoryMoveDest>,
}

/// Counters of account resources kept with the statistics.
#[derive(Clone, Debug, Default)]
pub struct StatsResources {
    pub pixel: Option<u128>,
    pub cpu: Option<u128>,
    pub credits: Option<u128>,
}

/// A unit's persisted memory. The task record is its role, goal, working flag
/// and home room; `_move` is the host's movement cache, which the record's
/// text form does not carry.
#[derive(Clone, Debug, Default)]
pub struct CreepMemory {
    pub _move: Option<CreepMemoryMove>,
    pub working: Option<bool>,
    pub homeroom: Option<String>,
    pub _type: Option<CreepType>,
    pub target: Option<CreepTarget>,
}

/// The task record as a mathematical value.
pub struct UnitRecord {
    pub role: Option<CreepType>,
    pub goal: Option<TargetView>,
    pub working: Option<bool>,
    pub home_room: Option<Seq<char>>,
}

pub open spec fn text_view(h: Option<String>) -> Option<Seq<char>> {
    match h {
        Some(s) => Some(s@),
        None => None,
    }
}

impl CreepMemory {
    pub open spec fn record(&self) -> UnitRecord {
        UnitRecord {
            role: self._type,
            goal: goal_view(self.target),
            working: self.working,
            home_room: text_view(self.homeroom),
        }
    }

    /// The memory of a new unit: its home room and role, nothing else.
    pub fn set_homeroom(self, room: Option<String>) -> (r: CreepMemory)
        ensures
            text_view(r.homeroom) == text_view(room),
            r._type == self._type,
            r.working == self.working,
            goal_view(r.target) == goal_view(self.target),
    {
        CreepMemory { homeroom: room, ..self }
    }

    /// This memory with its role replaced.
    pub fn set_type(self, creep_type: Option<CreepType>) -> (r: CreepMemory)
        ensures
            r._type == creep_type,
            text_view(r.homeroom) == text_view(self.homeroom),
            r.working == self.working,
            goal_view(r.target) == goal_view(self.target),
    {
        CreepMemory { _type: creep_type, ..self }
    }
}

/// A room name or identifier with no character that would need escaping.
pub open spec fn opt_plain(h: Option<Seq<char>>) -> bool {
    match h {
        Some(t) => plain(t),
        None => true,
    }
}

pub open spec fn goal_plain(g: Option<TargetView>) -> bool {
    match g {
        Some(t) => plain(target_id(t)),
        None => true,
    }
}

/// A record whose text form reads back: its home room and its goal's
/// identifier are plain.
pub open spec fn storable(rec: UnitRecord) -> bool {
    opt_plain(rec.home_room) && goal_plain(rec.goal)
}

pub open spec fn flag_text(w: Option<bool>) -> Seq<char> {
    match w {
        Some(true) => "true"@,
        Some(false) => "false"@,
        None => "null"@,
    }
}

pub open spec fn room_text(h: Option<Seq<char>>) -> Seq<char> {
    match h {
        Some(t) => quoted(t),
        None => "null"@,
    }
}

pub open spec fn role_text(role: Option<CreepType>) -> Seq<char> {
    match role {
        Some(k) => quoted(name_of(k)),
        None => "null"@,
    }
}

pub open spec fn tag_of(t: TargetView) -> Seq<char> {
    match t {
        TargetView::Upgrade(_) => "Upgrade"@,
        TargetView::Harvest(_) => "Harvest"@,
        TargetView::Spawn(_) => "Spawn"@,
        TargetView::Build(_) => "Build"@,
    }
}

pub open spec fn goal_text(g: Option<TargetView>) -> Seq<char> {
    match g {
        Some(t) => "{"@ + quoted(tag_of(t)) + ":"@ + quoted(target_id(t)) + "}"@,
        None => "null"@,
    }
}

/// The text form of a record: a JSON object with the fields `working`,
/// `homeroom`, `type` and `target`, in that order, without spaces; an absent
/// value is `null`, a goal is an object from its kind to its identifier.
pub open spec fn encoding(rec: UnitRecord) -> Seq<char> {
    "{\"working\":"@ + flag_text(rec.working) + ",\"homeroom\":"@ + room_text(rec.home_room)
        + ",\"type\":"@ + role_text(rec.role) + ",\"target\":"@ + goal_text(rec.goal) + "}"@
}

/// The storable record whose text form is `s`, if there is one.
pub open spec fn decoded(s: Seq<char>) -> Option<UnitRecord> {
    if exists|rec: UnitRecord| storable(rec) && #[trigger] encoding(rec) == s {
        Some(choose|rec: UnitRecord| storable(rec) && #[trigger] encoding(rec) == s)
    } else {
        None
    }
}

proof fn lemma_literals()
    ensures
        "true"@.len() == 4 && "true"@[0] == 't',
        "false"@.len() == 5 && "false"@[0] == 'f',
        "null"@.len() == 4 && "null"@[0] == 'n',
        "\""@.len() == 1 && "\""@[0] == '"',
        "{"@.len() == 1 && "{"@[0] == '{',
        ":"@.len() == 1 && ":"@[0] == ':',
        "}"@.len() == 1 && "}"@[0] == '}',
        "Upgrade"@.len() == 7 && "Upgrade"@[0] == 'U',
        "Harvest"@.len() == 7 && "Harvest"@[0] == 'H',
        "Spawn"@.len() == 5 && "Spawn"@[0] == 'S',
        "Build"@.len() == 5 && "Build"@[0] == 'B',
        "upgrader"@.len() == 8,
        "builder"@.len() == 7,
        "harvester"@.len() == 9,
        plain("Upgrade"@) && plain("Harvest"@) && plain("Spawn"@) && plain("Build"@),
        plain("upgrader"@) && plain("builder"@) && plain("harvester"@),
{
    reveal_strlit("true");
    reveal_strlit("false");
    reveal_strlit("null");
    reveal_strlit("\"");
    reveal_strlit("{");
    reveal_strlit(":");
    reveal_strlit("}");
    reveal_strlit("Upgrade");
    reveal_strlit("Harvest");
    reveal_strlit("Spawn");
    reveal_strlit("Build");
    reveal_strlit("upgrader");
    reveal_strlit("builder");
    reveal_strlit("harvester");
}

proof fn lemma_quoted_first(t: Seq<char>)
    ensures
        quoted(t)[0] == '"',
        quoted(t).len() == t.len() + 2,
{
    lemma_literals();
}

proof fn lemma_flag_unique(s: Seq<char>, pos: int, w1: Option<bool>, w2: Option<bool>)
    requires
        prefix_at(s, pos, flag_text(w1)),
        prefix_at(s, pos, flag_text(w2)),
    ensures
        w1 == w2,
{
    lemma_literals();
    lemma_prefix_char(s, pos, flag_text(w1), 0);
    lemma_prefix_char(s, pos, flag_text(w2), 0);
}

proof fn lemma_room_unique(s: Seq<char>, pos: int, h1: Option<Seq<char>>, h2: Option<Seq<char>>)
    requires
        opt_plain(h1),
        opt_plain(h2),
        prefix_at(s, pos, room_text(h1)),
        prefix_at(s, pos, room_text(h2)),
    ensures
        h1 == h2,
{
    lemma_literals();
    lemma_prefix_char(s, pos, room_text(h1), 0);
    lemma_prefix_char(s, pos, room_text(h2), 0);
    if let Some(t1) = h1 {
        lemma_quoted_first(t1);
        if let Some(t2) = h2 {
            lemma_quoted_unique(s, pos, t1, t2);
        }
    }
    if let Some(t2) = h2 {
        lemma_quoted_first(t2);
    }
}

proof fn lemma_role_unique(s: Seq<char>, pos: int, k1: Option<CreepType>, k2: Option<CreepType>)
    requires
        prefix_at(s, pos, role_text(k1)),
        prefix_at(s, pos, role_text(k2)),
    ensures
        k1 == k2,
{
    lemma_literals();
    lemma_prefix_char(s, pos, role_text(k1), 0);
    lemma_prefix_char(s, pos, role_text(k2), 0);
    if let Some(a) = k1 {
        lemma_quoted_first(name_of(a));
        if let Some(b) = k2 {
            lemma_quoted_unique(s, pos, name_of(a), name_of(b));
            assert(name_of(a).len() == name_of(b).len());
        }
    }
    if let Some(b) = k2 {
        lemma_quoted_first(name_of(b));
    }
}

/// The pieces of a goal's text form, one after the other.
proof fn lemma_goal_pieces(s: Seq<char>, pos: int, t: TargetView)
    ensures
        prefix_at(s, pos, goal_text(Some(t))) <==> {
            &&& prefix_at(s, pos, "{"@)
            &&& prefix_at(s, pos + 1, quoted(tag_of(t)))
            &&& prefix_at(s, pos + 1 + quoted(tag_of(t)).len(), ":"@)
            &&& prefix_at(s, pos + 2 + quoted(tag_of(t)).len(), quoted(target_id(t)))
            &&& prefix_at(
                s,
                pos + 2 + quoted(tag_of(t)).len() + quoted(target_id(t)).len(),
                "}"@,
            )
        },
{
    lemma_literals();
    let a = "{"@;
    let b = quoted(tag_of(t));
    let c = ":"@;
    let d = quoted(target_id(t));
    lemma_prefix_split(s, pos, a + b + c + d, "}"@);
    lemma_prefix_split(s, pos, a + b + c, d);
    lemma_prefix_split(s, pos, a + b, c);
    lemma_prefix_split(s, pos, a, b);
}

proof fn lemma_goal_unique(s: Seq<char>, pos: int, g1: Option<TargetView>, g2: Option<TargetView>)
    requires
        goal_plain(g1),
        goal_plain(g2),
        prefix_at(s, pos, goal_text(g1)),
        prefix_at(s, pos, goal_text(g2)),
    ensures
        g1 == g2,
{
    lemma_literals();
    lemma_prefix_char(s, pos, goal_text(g1), 0);
    lemma_prefix_char(s, pos, goal_text(g2), 0);
    if let Some(t1) = g1 {
        if let Some(t2) = g2 {
            lemma_goal_pieces(s, pos, t1);
            lemma_goal_pieces(s, pos, t2);
            lemma_quoted_unique(s, pos + 1, tag_of(t1), tag_of(t2));
            assert(tag_of(t1)[0] == tag_of(t2)[0]);
            lemma_quoted_unique(
                s,
                pos + 2 + quoted(tag_of(t1)).len(),
                target_id(t1),
                target_id(t2),
            );
        } else {
            assert(goal_text(g1)[0] == '{');
        }
    } else if let Some(t2) = g2 {
        assert(goal_text(g2)[0] == '{');
    }
}

pub open spec fn off_flag() -> int {
    "{\"working\":"@.len() as int
}

pub open spec fn off_room(rec: UnitRecord) -> int {
    off_flag() + flag_text(rec.working).len() + ",\"homeroom\":"@.len()
}

pub open spec fn off_role(rec: UnitRecord) -> int {
    off_room(rec) + room_text(rec.home_room).len() + ",\"type\":"@.len()
}

pub open spec fn off_goal(rec: UnitRecord) -> int {
    off_role(rec) + role_text(rec.role).len() + ",\"target\":"@.len()
}

pub open spec fn off_end(rec: UnitRecord) -> int {
    off_goal(rec) + goal_text(rec.goal).len()
}

/// The pieces of a record's text form, one after the other.
proof fn lemma_record_pieces(s: Seq<char>, rec: UnitRecord)
    ensures
        prefix_at(s, 0, encoding(rec)) <==> {
            &&& prefix_at(s, 0, "{\"working\":"@)
            &&& prefix_at(s, off_flag(), flag_text(rec.working))
            &&& prefix_at(s, off_flag() + flag_text(rec.working).len(), ",\"homeroom\":"@)
            &&& prefix_at(s, off_room(rec), room_text(rec.home_room))
            &&& prefix_at(s, off_room(rec) + room_text(rec.home_room).len(), ",\"type\":"@)
            &&& prefix_at(s, off_role(rec), role_text(rec.role))
            &&& prefix_at(s, off_role(rec) + role_text(rec.role).len(), ",\"target\":"@)
            &&& prefix_at(s, off_goal(rec), goal_text(rec.goal))
            &&& prefix_at(s, off_end(rec), "}"@)
        },
{
    let p1 = "{\"working\":"@;
    let p2 = flag_text(rec.working);
    let p3 = ",\"homeroom\":"@;
    let p4 = room_text(rec.home_room);
    let p5 = ",\"type\":"@;
    let p6 = role_text(rec.role);
    let p7 = ",\"target\":"@;
    let p8 = goal_text(rec.goal);
    let p9 = "}"@;
    lemma_prefix_split(s, 0, p1 + p2 + p3 + p4 + p5 + p6 + p7 + p8, p9);
    lemma_prefix_split(s, 0, p1 + p2 + p3 + p4 + p5 + p6 + p7, p8);
    lemma_prefix_split(s, 0, p1 + p2 + p3 + p4 + p5 + p6, p7);
    lemma_prefix_split(s, 0, p1 + p2 + p3 + p4 + p5, p6);
    lemma_prefix_split(s, 0, p1 + p2 + p3 + p4, p5);
    lemma_prefix_split(s, 0, p1 + p2 + p3, p4);
    lemma_prefix_split(s, 0, p1 + p2, p3);
    lemma_prefix_split(s, 0, p1, p2);
}

proof fn lemma_whole(s: Seq<char>)
    ensures
        prefix_at(s, 0, s),
{
    assert(s.subrange(0, s.len() as int) =~= s);
}

/// Two storable records with the same text form are the same record.
pub proof fn lemma_encoding_injective(r1: UnitRecord, r2: UnitRecord)
    requires
        storable(r1),
        storable(r2),
        encoding(r1) == encoding(r2),
    ensures
        r1 == r2,
{
    let s = encoding(r1);
    lemma_whole(s);
    lemma_record_pieces(s, r1);
    lemma_record_pieces(s, r2);
    lemma_flag_unique(s, off_flag(), r1.working, r2.working);
    lemma_room_unique(s, off_room(r1), r1.home_room, r2.home_room);
    lemma_role_unique(s, off_role(r1), r1.role, r2.role);
    lemma_goal_unique(s, off_goal(r1), r1.goal, r2.goal);
}

/// Writing a storable record and reading the text back gives the same
/// record: role, goal, working flag and home room.
pub proof fn lemma_round_trip(rec: UnitRecord)
    requires
        storable(rec),
    ensures
        decoded(encoding(rec)) == Some(rec),
{
    let s = encoding(rec);
    assert(storable(rec) && encoding(rec) == s);
    let c = choose|c: UnitRecord| storable(c) && #[trigger] encoding(c) == s;
    lemma_encoding_injective(c, rec);
}


fn append_quoted(out: &mut String, t: &str)
    ensures
        final(out)@ == old(out)@ + quoted(t@),
{
    out.append("\"");
    out.append(t);
    out.append("\"");
}

fn append_flag(out: &mut String, w: Option<bool>)
    ensures
        final(out)@ == old(out)@ + flag_text(w),
{
    match w {
        Some(true) => out.append("true"),
        Some(false) => out.append("false"),
        None => out.append("null"),
    }
}

fn append_room(out: &mut String, h: &Option<String>)
    ensures
        final(out)@ == old(out)@ + room_text(text_view(*h)),
{
    match h {
        Some(t) => append_quoted(out, t.as_str()),
        None => out.append("null"),
    }
}

fn append_role(out: &mut String, k: Option<CreepType>)
    ensures
        final(out)@ == old(out)@ + role_text(k),
{
    match k {
        Some(k) => {
            let name = k.name();
            append_quoted(out, name.as_str());
        },
        None => out.append("null"),
    }
}

fn append_goal(out: &mut String, g: &Option<CreepTarget>)
    ensures
        final(out)@ == old(out)@ + goal_text(goal_view(*g)),
{
    match g {
        Some(t) => {
            let tag = match t {
                CreepTarget::Upgrade(_) => "Upgrade",
                CreepTarget::Harvest(_) => "Harvest",
                CreepTarget::Spawn(_) => "Spawn",
                CreepTarget::Build(_) => "Build",
            };
            let ghost start = out@;
            out.append("{");
            append_quoted(out, tag);
            out.append(":");
            append_quoted(out, t.id().as_str());
            out.append("}");
            assert(out@ =~= start + goal_text(goal_view(*g)));
        },
        None => out.append("null"),
    }
}

fn read_flag(s: &str, n: usize, pos: usize) -> (r: Option<(Option<bool>, usize)>)
    requires
        n == s@.len(),
        pos <= n,
    ensures
        r matches Some((w, e)) ==> prefix_at(s@, pos as int, flag_text(w)) && e == pos + flag_text(
            w,
        ).len(),
        (exists|w: Option<bool>| #[trigger] prefix_at(s@, pos as int, flag_text(w))) ==> r is Some,
{
    if let Some(e) = eat(s, n, pos, "true") {
        assert(flag_text(Some(true)) == "true"@);
        return Some((Some(true), e));
    }
    if let Some(e) = eat(s, n, pos, "false") {
        assert(flag_text(Some(false)) == "false"@);
        return Some((Some(false), e));
    }
    if let Some(e) = eat(s, n, pos, "null") {
        assert(flag_text(None) == "null"@);
        return Some((None, e));
    }
    assert forall|w: Option<bool>| !#[trigger] prefix_at(s@, pos as int, flag_text(w)) by {
        match w {
            Some(true) => {},
            Some(false) => {},
            None => {},
        }
    }
    None
}

fn read_room(s: &str, n: usize, pos: usize) -> (r: Option<(Option<String>, usize)>)
    requires
        n == s@.len(),
        pos <= n,
    ensures
        r matches Some((h, e)) ==> opt_plain(text_view(h)) && prefix_at(
            s@,
            pos as int,
            room_text(text_view(h)),
        ) && e == pos + room_text(text_view(h)).len(),
        (exists|h: Option<Seq<char>>|
            opt_plain(h) && #[trigger] prefix_at(s@, pos as int, room_text(h))) ==> r is Some,
{
    if let Some(e) = eat(s, n, pos, "null") {
        return Some((None, e));
    }
    proof {
        if exists|h: Option<Seq<char>>|
            opt_plain(h) && #[trigger] prefix_at(s@, pos as int, room_text(h)) {
            let h = choose|h: Option<Seq<char>>|
                opt_plain(h) && #[trigger] prefix_at(s@, pos as int, room_text(h));
            if let Some(t) = h {
                assert(plain(t) && prefix_at(s@, pos as int, quoted(t)));
            }
        }
    }
    match read_quoted(s, n, pos) {
        Some((t, e)) => Some((Some(t), e)),
        None => None,
    }
}

fn role_named(t: &String) -> (r: Option<CreepType>)
    ensures
        r matches Some(k) ==> name_of(k) == t@,
        r is None ==> forall|k: CreepType| name_of(k) != t@,
{
    if t.eq(&String::from_str("upgrader")) {
        Some(CreepType::Upgrader)
    } else if t.eq(&String::from_str("builder")) {
        Some(CreepType::Builder)
    } else if t.eq(&String::from_str("harvester")) {
        Some(CreepType::Harvester)
    } else {
        assert forall|k: CreepType| name_of(k) != t@ by {
            match k {
                CreepType::Upgrader => {},
                CreepType::Builder => {},
                CreepType::Harvester => {},
            }
        }
        None
    }
}

fn read_role(s: &str, n: usize, pos: usize) -> (r: Option<(Option<CreepType>, usize)>)
    requires
        n == s@.len(),
        pos <= n,
    ensures
        r matches Some((k, e)) ==> prefix_at(s@, pos as int, role_text(k)) && e == pos + role_text(
            k,
        ).len(),
        (exists|k: Option<CreepType>| #[trigger] prefix_at(s@, pos as int, role_text(k))) ==> r is Some,
{
    if let Some(e) = eat(s, n, pos, "null") {
        return Some((None, e));
    }
    proof {
        lemma_literals();
    }
    let ghost any_k = exists|k: Option<CreepType>| #[trigger] prefix_at(s@, pos as int, role_text(k));
    let ghost k0: Option<CreepType> = if any_k {
        choose|k: Option<CreepType>| #[trigger] prefix_at(s@, pos as int, role_text(k))
    } else {
        None
    };
    proof {
        if any_k {
            if let Some(k) = k0 {
                assert(plain(name_of(k)) && prefix_at(s@, pos as int, quoted(name_of(k))));
            }
        }
    }
    match read_quoted(s, n, pos) {
        Some((t, e)) => {
            proof {
                if any_k {
                    if let Some(k) = k0 {
                        lemma_quoted_unique(s@, pos as int, t@, name_of(k));
                    }
                }
            }
            match role_named(&t) {
                Some(k) => Some((Some(k), e)),
                None => None,
            }
        },
        None => None,
    }
}

fn target_named(tag: &String, id: String) -> (r: Option<CreepTarget>)
    ensures
        r matches Some(t) ==> tag_of(t@) == tag@ && target_id(t@) == id@,
        r is None ==> forall|t: TargetView| tag_of(t) != tag@,
{
    if tag.eq(&String::from_str("Upgrade")) {
        Some(CreepTarget::Upgrade(id))
    } else if tag.eq(&String::from_str("Harvest")) {
        Some(CreepTarget::Harvest(id))
    } else if tag.eq(&String::from_str("Spawn")) {
        Some(CreepTarget::Spawn(id))
    } else if tag.eq(&String::from_str("Build")) {
        Some(CreepTarget::Build(id))
    } else {
        assert forall|t: TargetView| tag_of(t) != tag@ by {
            match t {
                TargetView::Upgrade(_) => {},
                TargetView::Harvest(_) => {},
                TargetView::Spawn(_) => {},
                TargetView::Build(_) => {},
            }
        }
        None
    }
}

fn read_goal(s: &str, n: usize, pos: usize) -> (r: Option<(Option<CreepTarget>, usize)>)
    requires
        n == s@.len(),
        pos <= n,
    ensures
        r matches Some((g, e)) ==> goal_plain(goal_view(g)) && prefix_at(
            s@,
            pos as int,
            goal_text(goal_view(g)),
        ) && e == pos + goal_text(goal_view(g)).len(),
        (exists|g: Option<TargetView>|
            goal_plain(g) && #[trigger] prefix_at(s@, pos as int, goal_text(g))) ==> r is Some,
{
    if let Some(e) = eat(s, n, pos, "null") {
        return Some((None, e));
    }
    proof {
        lemma_literals();
    }
    let ghost any_g = exists|g: Option<TargetView>|
        goal_plain(g) && #[trigger] prefix_at(s@, pos as int, goal_text(g));
    let ghost g0: TargetView = if any_g {
        let g = choose|g: Option<TargetView>|
            goal_plain(g) && #[trigger] prefix_at(s@, pos as int, goal_text(g));
        match g {
            Some(t) => t,
            None => TargetView::Build(Seq::empty()),
        }
    } else {
        TargetView::Build(Seq::empty())
    };
    proof {
        if any_g {
            let g = choose|g: Option<TargetView>|
                goal_plain(g) && #[trigger] prefix_at(s@, pos as int, goal_text(g));
            if g is None {
                assert(prefix_at(s@, pos as int, "null"@));
            }
            lemma_goal_pieces(s@, pos as int, g0);
            lemma_quoted_first(tag_of(g0));
            lemma_quoted_first(target_id(g0));
        }
    }
    let p1 = match eat(s, n, pos, "{") {
        Some(p) => p,
        None => return None,
    };
    let (tag, p2) = match read_quoted(s, n, p1) {
        Some(x) => x,
        None => return None,
    };
    proof {
        if any_g {
            lemma_quoted_unique(s@, p1 as int, tag@, tag_of(g0));
        }
    }
    let p3 = match eat(s, n, p2, ":") {
        Some(p) => p,
        None => return None,
    };
    let (id, p4) = match read_quoted(s, n, p3) {
        Some(x) => x,
        None => return None,
    };
    proof {
        if any_g {
            lemma_quoted_unique(s@, p3 as int, id@, target_id(g0));
        }
    }
    let p5 = match eat(s, n, p4, "}") {
        Some(p) => p,
        None => return None,
    };
    let ghost id_view = id@;
    match target_named(&tag, id) {
        Some(t) => {
            proof {
                lemma_goal_pieces(s@, pos as int, t@);
            }
            Some((Some(t), p5))
        },
        None => None,
    }
}

impl CreepMemory {
    /// The text form of this memory's task record (see `encoding`).
    pub fn encode(&self) -> (r: String)
        ensures
            r@ == encoding(self.record()),
    {
        let mut out = String::from_str("{\"working\":");
        append_flag(&mut out, self.working);
        out.append(",\"homeroom\":");
        append_room(&mut out, &self.homeroom);
        out.append(",\"type\":");
        append_role(&mut out, self._type);
        out.append(",\"target\":");
        append_goal(&mut out, &self.target);
        out.append("}");
        out
    }

    /// Reads a task record back from its text form: `Some` exactly when `s`
    /// is the text form of a storable record, and then that record, with no
    /// movement cache.
    pub fn decode(s: &str) -> (r: Option<CreepMemory>)
        ensures
            r matches Some(m) ==> decoded(s@) == Some(m.record()) && m._move is None,
            r is None ==> decoded(s@) is None,
    {
        let n = s.unicode_len();
        let ghost any = exists|rec: UnitRecord| storable(rec) && #[trigger] encoding(rec) == s@;
        let ghost rec0 = choose|rec: UnitRecord| storable(rec) && #[trigger] encoding(rec) == s@;
        proof {
            if any {
                lemma_whole(s@);
                lemma_record_pieces(s@, rec0);
            }
        }
        let p1 = match eat(s, n, 0, "{\"working\":") {
            Some(p) => p,
            None => return None,
        };
        let (working, p2) = match read_flag(s, n, p1) {
            Some(x) => x,
            None => return None,
        };
        proof {
            if any {
                lemma_flag_unique(s@, p1 as int, working, rec0.working);
            }
        }
        let p3 = match eat(s, n, p2, ",\"homeroom\":") {
            Some(p) => p,
            None => return None,
        };
        let (homeroom, p4) = match read_room(s, n, p3) {
            Some(x) => x,
            None => return None,
        };
        proof {
            if any {
                lemma_room_unique(s@, p3 as int, text_view(homeroom), rec0.home_room);
            }
        }
        let p5 = match eat(s, n, p4, ",\"type\":") {
            Some(p) => p,
            None => return None,
        };
        let (role, p6) = match read_role(s, n, p5) {
            Some(x) => x,
            None => return None,
        };
        proof {
            if any {
                lemma_role_unique(s@, p5 as int, role, rec0.role);
            }
        }
        let p7 = match eat(s, n, p6, ",\"target\":") {
            Some(p) => p,
            None => return None,
        };
        let (target, p8) = match read_goal(s, n, p7) {
            Some(x) => x,
            None => return None,
        };
        proof {
            if any {
                lemma_goal_unique(s@, p7 as int, goal_view(target), rec0.goal);
            }
        }
        let p9 = match eat(s, n, p8, "}") {
            Some(p) => p,
            None => return None,
        };
        if p9 != n {
            proof {
                if any {
                    assert(off_end(rec0) + 1 == encoding(rec0).len()) by {
                        lemma_literals();
                    }
                }
            }
            return None;
        }
        let m = CreepMemory { _move: None, working, homeroom, _type: role, target };
        proof {
            let rec = m.record();
            lemma_record_pieces(s@, rec);
            lemma_literals();
            assert(encoding(rec).len() == n);
            assert(s@.subrange(0, n as int) =~= s@);
            assert(storable(rec) && encoding(rec) == s@);
            let c = choose|c: UnitRecord| storable(c) && #[trigger] encoding(c) == s@;
            lemma_encoding_injective(c, rec);
        }
        Some(m)
    }
}

/// Whether memory `m` is of a unit of role `k`, homed in `room` when one is
/// given.
pub open spec fn counted(k: CreepType, room: Option<Seq<char>>, m: CreepMemory) -> bool {
    m._type == Some(k) && match room {
        Some(r) => text_view(m.homeroom) == Some(r),
        None => true,
    }
}

/// How many of `units` are counted (see `counted`).
pub open spec fn count_of(k: CreepType, room: Option<Seq<char>>, units: Seq<CreepMemory>) -> nat
    decreases units.len(),
{
    if units.len() == 0 {
        0
    } else {
        count_of(k, room, units.drop_last()) + if counted(k, room, units.last()) {
            1nat
        } else {
            0nat
        }
    }
}

impl CreepType {
    /// How many living units, given by their memories, have this role, and
    /// with `room` given, that home room; `None` when the count does not fit
    /// a `u32`.
    pub fn amount_alive(&self, units: &Vec<CreepMemory>, room: &Option<String>) -> (r: Option<u32>)
        ensures
            r == (if count_of(*self, text_view(*room), units@) <= u32::MAX {
                Some(count_of(*self, text_view(*room), units@) as u32)
            } else {
                None::<u32>
            }),
    {
        let mut count: u64 = 0;
        let mut i: usize = 0;
        while i < units.len()
            invariant
                i <= units@.len(),
                count == count_of(*self, text_view(*room), units@.take(i as int)),
                count <= i,
            decreases units@.len() - i,
        {
            assert(units@.take(i + 1).drop_last() =~= units@.take(i as int));
            let m = &units[i];
            let matches_role = match m._type {
                Some(k) => k == *self,
                None => false,
            };
            let matches_room = match room {
                Some(r) => match &m.homeroom {
                    Some(h) => h.eq(r),
                    None => false,
                },
                None => true,
            };
            if matches_role && matches_room {
                count = count + 1;
            }
            i += 1;
        }
        assert(units@.take(units@.len() as int) =~= units@);
        if count <= u32::MAX as u64 {
            Some(count as u32)
        } else {
            None
        }
    }
}

impl CreepMemory {
    /// How many of `units` share this unit's role, and with `homeroom`, also
    /// its home room when it has one; `None` when this unit has no role or the
    /// count does not fit a `u32`.
    pub fn total_of_type(&self, units: &Vec<CreepMemory>, homeroom: bool) -> (r: Option<u32>)
        ensures
            r == (match self._type {
                None => None::<u32>,
                Some(k) => {
                    let room = if homeroom {
                        text_view(self.homeroom)
                    } else {
                        None
                    };
                    if count_of(k, room, units@) <= u32::MAX {
                        Some(count_of(k, room, units@) as u32)
                    } else {
                        None::<u32>
                    }
                },
            }),
    {
        match self._type {
            None => None,
            Some(k) => {
                if homeroom {
                    k.amount_alive(units, &self.homeroom)
                } else {
                    k.amount_alive(units, &None)
                }
            },
        }
    }
}

/// Names of `persisted` records whose unit is not among `alive`, in order.
pub open spec fn stale(persisted: Seq<Seq<char>>, alive: Seq<Seq<char>>) -> Seq<Seq<char>>
    decreases persisted.len(),
{
    if persisted.len() == 0 {
        Seq::empty()
    } else {
        let rest = stale(persisted.drop_last(), alive);
        if alive.contains(persisted.last()) {
            rest
        } else {
            rest.push(persisted.last())
        }
    }
}

pub open spec fn names(v: Seq<String>) -> Seq<Seq<char>> {
    v.map_values(|s: String| s@)
}

fn contains_name(alive: &Vec<String>, name: &String) -> (r: bool)
    ensures
        r == names(alive@).contains(name@),
{
    let mut i: usize = 0;
    while i < alive.len()
        invariant
            i <= alive@.len(),
            forall|k: int| 0 <= k < i ==> alive@[k]@ != name@,
        decreases alive@.len() - i,
    {
        if alive[i].eq(name) {
            assert(names(alive@)[i as int] == name@);
            return true;
        }
        i += 1;
    }
    assert forall|k: int| 0 <= k < names(alive@).len() implies names(alive@)[k] != name@ by {
        assert(names(alive@)[k] == alive@[k]@);
    }
    false
}

/// The records to delete before this tick's assignments: the names among
/// `persisted` of units that are not in `alive`, in the order persisted.
pub fn stale_records(persisted: &Vec<String>, alive: &Vec<String>) -> (r: Vec<String>)
    ensures
        names(r@) == stale(names(persisted@), names(alive@)),
{
    let mut out: Vec<String> = Vec::new();
    let mut i: usize = 0;
    while i < persisted.len()
        invariant
            i <= persisted@.len(),
            names(out@) == stale(names(persisted@).take(i as int), names(alive@)),
        decreases persisted@.len() - i,
    {
        let ghost before = out@;
        assert(names(persisted@).take(i + 1).drop_last() =~= names(persisted@).take(i as int));
        assert(names(persisted@).take(i + 1).last() == persisted@[i as int]@);
        if !contains_name(alive, &persisted[i]) {
            out.push(persisted[i].clone());
            assert(names(out@) =~= names(before).push(persisted@[i as int]@));
        }
        i += 1;
    }
    assert(names(persisted@).take(persisted@.len() as int) =~= names(persisted@));
    out
}

} // verus!
