use vstd::prelude::*;

verus! {

/// Separator between the segments of an MQTT topic.
pub const TOPIC_SEPARATOR: char = '/';

/// The pieces of `s` between occurrences of `sep`, from left to right.
/// There is always at least one piece; `k` separators give `k + 1` pieces.
pub open spec fn split_on(s: Seq<char>, sep: char) -> Seq<Seq<char>>
    decreases s.len(),
{
    if s.len() == 0 {
        seq![Seq::<char>::empty()]
    } else {
        let front = split_on(s.drop_last(), sep);
        if s.last() == sep {
            front.push(Seq::<char>::empty())
        } else {
            front.update(front.len() - 1, front.last().push(s.last()))
        }
    }
}

/// The pieces of `parts` with `sep` between each two neighbours.
pub open spec fn join_with(parts: Seq<Seq<char>>, sep: char) -> Seq<char>
    decreases parts.len(),
{
    if parts.len() == 0 {
        Seq::<char>::empty()
    } else if parts.len() == 1 {
        parts[0]
    } else {
        join_with(parts.drop_last(), sep).push(sep) + parts.last()
    }
}

/// True when no character of `s` is `sep`.
pub open spec fn free_of(s: Seq<char>, sep: char) -> bool {
    forall|i: int| 0 <= i < s.len() ==> s[i] != sep
}

/// The character views of a list of strings.
pub open spec fn string_views(v: Seq<String>) -> Seq<Seq<char>> {
    v.map_values(|p: String| p@)
}

/// Splitting always yields at least one piece, and no piece holds the separator.
pub proof fn lemma_split_shape(s: Seq<char>, sep: char)
    ensures
        split_on(s, sep).len() >= 1,
        forall|i: int| 0 <= i < split_on(s, sep).len() ==> free_of(#[trigger] split_on(s, sep)[i], sep),
    decreases s.len(),
{
    if s.len() > 0 {
        lemma_split_shape(s.drop_last(), sep);
    }
}

/// Replacing the last piece by itself followed by `c` appends `c` to the joined text.
proof fn lemma_join_extend_last(parts: Seq<Seq<char>>, sep: char, c: char)
    requires
        parts.len() >= 1,
    ensures
        join_with(parts.update(parts.len() - 1, parts.last().push(c)), sep) == join_with(parts, sep).push(c),
{
    let q = parts.update(parts.len() - 1, parts.last().push(c));
    if parts.len() == 1 {
        assert(q[0] == parts[0].push(c));
    } else {
        assert(q.drop_last() =~= parts.drop_last());
        assert(q.last() == parts.last().push(c));
        assert(join_with(q, sep) == join_with(parts.drop_last(), sep).push(sep) + parts.last().push(c));
        assert(join_with(parts.drop_last(), sep).push(sep) + parts.last().push(c)
            =~= (join_with(parts.drop_last(), sep).push(sep) + parts.last()).push(c));
    }
}

/// Joining the pieces of a split with the same separator gives back the text.
pub proof fn lemma_join_split(s: Seq<char>, sep: char)
    ensures
        join_with(split_on(s, sep), sep) == s,
    decreases s.len(),
{
    if s.len() == 0 {
        assert(join_with(split_on(s, sep), sep) =~= s);
    } else {
        let t = s.drop_last();
        let front = split_on(t, sep);
        lemma_join_split(t, sep);
        lemma_split_shape(t, sep);
        if s.last() == sep {
            let parts = front.push(Seq::<char>::empty());
            assert(parts.drop_last() =~= front);
            assert(join_with(parts, sep) =~= t.push(sep));
            assert(t.push(sep) =~= s);
        } else {
            lemma_join_extend_last(front, sep, s.last());
            assert(t.push(s.last()) =~= s);
        }
    }
}

/// Appending text without a separator extends the last piece of a split.
proof fn lemma_split_append_plain(a: Seq<char>, b: Seq<char>, sep: char)
    requires
        free_of(b, sep),
    ensures
        split_on(a + b, sep) == split_on(a, sep).update(
            split_on(a, sep).len() - 1,
            split_on(a, sep).last() + b,
        ),
    decreases b.len(),
{
    lemma_split_shape(a, sep);
    let sa = split_on(a, sep);
    if b.len() == 0 {
        assert(a + b =~= a);
        assert(sa.last() + b =~= sa.last());
        assert(sa.update(sa.len() - 1, sa.last()) =~= sa);
    } else {
        let b0 = b.drop_last();
        assert(free_of(b0, sep));
        lemma_split_append_plain(a, b0, sep);
        assert((a + b).drop_last() =~= a + b0);
        assert((a + b).last() == b.last());
        let f = split_on(a + b0, sep);
        assert(f == sa.update(sa.len() - 1, sa.last() + b0));
        assert(b.last() == b[b.len() - 1]);
        assert(b.last() != sep);
        assert(f.len() == sa.len());
        assert(f.last() == sa.last() + b0);
        assert((sa.last() + b0).push(b.last()) =~= sa.last() + b);
        assert(f.update(f.len() - 1, f.last().push(b.last()))
            =~= sa.update(sa.len() - 1, sa.last() + b));
    }
}

/// Splitting the join of separator-free pieces gives back the pieces.
pub proof fn lemma_split_join(parts: Seq<Seq<char>>, sep: char)
    requires
        parts.len() >= 1,
        forall|i: int| 0 <= i < parts.len() ==> free_of(#[trigger] parts[i], sep),
    ensures
        split_on(join_with(parts, sep), sep) == parts,
    decreases parts.len(),
{
    if parts.len() == 1 {
        lemma_split_append_plain(Seq::<char>::empty(), parts[0], sep);
        assert(Seq::<char>::empty() + parts[0] =~= parts[0]);
        assert(split_on(Seq::<char>::empty(), sep).last() + parts[0] =~= parts[0]);
        assert(split_on(parts[0], sep) =~= parts);
    } else {
        let front = parts.drop_last();
        assert(forall|i: int| 0 <= i < front.len() ==> free_of(#[trigger] front[i], sep)) by {
            assert forall|i: int| 0 <= i < front.len() implies free_of(#[trigger] front[i], sep) by {
                assert(front[i] == parts[i]);
            }
        }
        lemma_split_join(front, sep);
        let a = join_with(front, sep).push(sep);
        assert(free_of(parts.last(), sep)) by {
            assert(parts.last() == parts[parts.len() - 1]);
        }
        lemma_split_append_plain(a, parts.last(), sep);
        assert(a.drop_last() =~= join_with(front, sep));
        let sa = split_on(a, sep);
        assert(sa == front.push(Seq::<char>::empty()));
        assert(Seq::<char>::empty() + parts.last() =~= parts.last());
        assert(sa.update(sa.len() - 1, sa.last() + parts.last()) =~= parts);
    }
}

/// Splits `topic` at every `/`, as the segments of an MQTT topic name.
pub fn split_topic(topic: &str) -> (parts: Vec<String>)
    ensures
        string_views(parts@) == split_on(topic@, TOPIC_SEPARATOR),
{
    let n = topic.unicode_len();
    let mut parts: Vec<String> = Vec::new();
    let mut start: usize = 0;
    let mut i: usize = 0;
    assert(topic@.take(0) =~= Seq::<char>::empty());
    assert(string_views(parts@).push(topic@.subrange(0, 0)) =~= seq![Seq::<char>::empty()]);
    while i < n
        invariant
            n == topic@.len(),
            start <= i <= n,
            split_on(topic@.take(i as int), TOPIC_SEPARATOR) == string_views(parts@).push(
                topic@.subrange(start as int, i as int),
            ),
        decreases n - i,
    {
        let c = topic.get_char(i);
        assert(topic@.take(i + 1).drop_last() =~= topic@.take(i as int));
        assert(topic@.take(i + 1).last() == c);
        if c == TOPIC_SEPARATOR {
            let piece = String::from_str(topic.substring_char(start, i));
            let ghost before = string_views(parts@);
            parts.push(piece);
            assert(string_views(parts@) =~= before.push(topic@.subrange(start as int, i as int)));
            start = i + 1;
            assert(topic@.subrange(start as int, (i + 1) as int) =~= Seq::<char>::empty());
        } else {
            assert(topic@.subrange(start as int, i as int).push(c) =~= topic@.subrange(
                start as int,
                (i + 1) as int,
            ));
        }
        i = i + 1;
    }
    let last = String::from_str(topic.substring_char(start, n));
    let ghost before = string_views(parts@);
    parts.push(last);
    assert(string_views(parts@) =~= before.push(topic@.subrange(start as int, n as int)));
    assert(topic@.take(n as int) =~= topic@);
    parts
}

/// What a unit asks for, read from the second segment of its topic.
#[derive(Clone, Copy, PartialEq, Eq, Debug, Structural)]
pub enum Command {
    /// `attendence`: a fingerprint log line to record.
    Attendence,
    /// `connected`: the unit came online.
    Connected,
    /// `disconnected`: the unit went offline.
    Disconnected,
    /// `deletesync`: the unit asks for the next student to forget.
    DeleteSync,
    /// `insertsync`: the unit asks for the next student to enrol.
    InsertSync,
    /// `deletesyncack`: the unit forgot the student it was given.
    DeleteSyncAck,
    /// `insertsyncack`: the unit enrolled the student it was given.
    InsertSyncAck,
    /// Any other segment; such messages are ignored.
    Other,
}

/// The topic segment that names `c` (empty for `Other`).
pub open spec fn command_name(c: Command) -> Seq<char> {
    match c {
        Command::Attendence => "attendence"@,
        Command::Connected => "connected"@,
        Command::Disconnected => "disconnected"@,
        Command::DeleteSync => "deletesync"@,
        Command::InsertSync => "insertsync"@,
        Command::DeleteSyncAck => "deletesyncack"@,
        Command::InsertSyncAck => "insertsyncack"@,
        Command::Other => Seq::<char>::empty(),
    }
}

/// The command that the segment `s` names.
pub open spec fn command_of(s: Seq<char>) -> Command {
    if s == "attendence"@ {
        Command::Attendence
    } else if s == "connected"@ {
        Command::Connected
    } else if s == "disconnected"@ {
        Command::Disconnected
    } else if s == "deletesync"@ {
        Command::DeleteSync
    } else if s == "insertsync"@ {
        Command::InsertSync
    } else if s == "deletesyncack"@ {
        Command::DeleteSyncAck
    } else if s == "insertsyncack"@ {
        Command::InsertSyncAck
    } else {
        Command::Other
    }
}

/// Reads a command segment.
pub fn command_from(segment: &String) -> (c: Command)
    ensures
        c == command_of(segment@),
{
    if segment.eq(&String::from_str("attendence")) {
        Command::Attendence
    } else if segment.eq(&String::from_str("connected")) {
        Command::Connected
    } else if segment.eq(&String::from_str("disconnected")) {
        Command::Disconnected
    } else if segment.eq(&String::from_str("deletesync")) {
        Command::DeleteSync
    } else if segment.eq(&String::from_str("insertsync")) {
        Command::InsertSync
    } else if segment.eq(&String::from_str("deletesyncack")) {
        Command::DeleteSyncAck
    } else if segment.eq(&String::from_str("insertsyncack")) {
        Command::InsertSyncAck
    } else {
        Command::Other
    }
}

/// A topic read as `<unit>/<command>[/...]`.
pub struct Topic {
    /// First segment: the unit, which is also the topic its answers go to.
    pub unit: String,
    /// Command named by the second segment.
    pub command: Command,
}

/// Reads a topic. A topic without any `/` has no command segment and gives `None`;
/// segments after the second are not looked at.
pub fn parse_topic(topic: &str) -> (r: Option<Topic>)
    ensures
        r is None <==> split_on(topic@, TOPIC_SEPARATOR).len() < 2,
        r matches Some(t) ==> t.unit@ == split_on(topic@, TOPIC_SEPARATOR)[0] && t.command
            == command_of(split_on(topic@, TOPIC_SEPARATOR)[1]),
{
    let parts = split_topic(topic);
    if parts.len() < 2 {
        return None;
    }
    assert(string_views(parts@)[0] == parts@[0]@);
    assert(string_views(parts@)[1] == parts@[1]@);
    let command = command_from(&parts[1]);
    let unit = parts[0].clone();
    Some(Topic { unit, command })
}

} // verus!
