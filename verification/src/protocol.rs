//! The line-oriented text encoding of the messages: a tag, then the fields,
//! each on a line of its own.

use crate::command::{CommandView, ProjectorCommand};
use crate::text::{chars_of, same_text};
use vstd::prelude::*;

verus! {

/// Why a received text is no message.
#[derive(Debug, Clone, Copy, PartialEq, Eq, Structural)]
pub enum ProtocolError {
    /// The first line is no tag that the receiving side accepts.
    UnknownTag,
    /// The tag is known, but fewer fields follow than it needs.
    MissingField,
}

/// The fields of a text: what stands between its line feeds. A text without
/// a line feed is one field, and so is the empty text.
pub open spec fn split_lines(s: Seq<char>) -> Seq<Seq<char>>
    decreases s.len(),
{
    if s.len() == 0 {
        seq![Seq::<char>::empty()]
    } else {
        let before = split_lines(s.drop_last());
        if s.last() == '\n' {
            before.push(Seq::<char>::empty())
        } else {
            before.drop_last().push(before.last().push(s.last()))
        }
    }
}

/// The fields written one after the other, with a line feed between two
/// neighbours.
pub open spec fn join_lines(fields: Seq<Seq<char>>) -> Seq<char>
    decreases fields.len(),
{
    if fields.len() == 0 {
        Seq::<char>::empty()
    } else if fields.len() == 1 {
        fields[0]
    } else {
        join_lines(fields.drop_last()) + seq!['\n'] + fields.last()
    }
}

/// Whether no line feed stands in `field`.
pub open spec fn single_line(field: Seq<char>) -> bool {
    forall|i: int| 0 <= i < field.len() ==> #[trigger] field[i] != '\n'
}

/// The text of a message.
pub open spec fn wire_text(cmd: CommandView) -> Seq<char> {
    match cmd {
        CommandView::Start { path, skip } => "START"@ + seq!['\n'] + path + seq!['\n'] + skip,
        CommandView::VideoEnded => "VideoEnded"@,
    }
}

/// What the player makes of a received text: a `Start` where the tag is
/// `START` and at least two fields follow it; further fields are ignored.
pub open spec fn command_of(text: Seq<char>) -> Result<CommandView, ProtocolError> {
    let fields = split_lines(text);
    if fields[0] != "START"@ {
        Err(ProtocolError::UnknownTag)
    } else if fields.len() < 3 {
        Err(ProtocolError::MissingField)
    } else {
        Ok(CommandView::Start { path: fields[1], skip: fields[2] })
    }
}

/// What the controller makes of a received text: `VideoEnded` where that is
/// the tag; fields after it are ignored.
pub open spec fn event_of(text: Seq<char>) -> Result<CommandView, ProtocolError> {
    if split_lines(text)[0] == "VideoEnded"@ {
        Ok(CommandView::VideoEnded)
    } else {
        Err(ProtocolError::UnknownTag)
    }
}

/// The texts of a list of strings.
pub open spec fn texts(strings: Seq<String>) -> Seq<Seq<char>> {
    strings.map_values(|s: String| s@)
}

/// A text always has at least one field.
pub proof fn lemma_split_nonempty(s: Seq<char>)
    ensures
        split_lines(s).len() >= 1,
    decreases s.len(),
{
    if s.len() > 0 {
        lemma_split_nonempty(s.drop_last());
    }
}

/// No field of a text holds a line feed.
pub proof fn lemma_split_single_lines(s: Seq<char>)
    ensures
        forall|k: int| 0 <= k < split_lines(s).len() ==> single_line(#[trigger] split_lines(s)[k]),
    decreases s.len(),
{
    if s.len() > 0 {
        lemma_split_nonempty(s.drop_last());
        lemma_split_single_lines(s.drop_last());
        let before = split_lines(s.drop_last());
        assert forall|k: int| 0 <= k < split_lines(s).len() implies single_line(
            #[trigger] split_lines(s)[k],
        ) by {
            if k < before.len() - 1 {
                assert(split_lines(s)[k] == before[k]);
            } else if s.last() != '\n' {
                assert(single_line(before[before.len() - 1]));
            } else if k < before.len() {
                assert(split_lines(s)[k] == before[k]);
            }
        }
    }
}

/// Joining the fields of a text gives the text back.
pub proof fn lemma_join_split(s: Seq<char>)
    ensures
        join_lines(split_lines(s)) == s,
    decreases s.len(),
{
    lemma_split_nonempty(s);
    if s.len() == 0 {
    } else {
        lemma_split_nonempty(s.drop_last());
        lemma_join_split(s.drop_last());
        let before = split_lines(s.drop_last());
        let after = split_lines(s);
        if s.last() == '\n' {
            assert(after.drop_last() =~= before);
            assert(join_lines(after) =~= s.drop_last() + seq!['\n'] + Seq::<char>::empty());
            assert(s =~= s.drop_last() + seq!['\n'] + Seq::<char>::empty());
        } else {
            lemma_join_push_char(before, s.last());
            assert(s =~= s.drop_last().push(s.last()));
        }
    }
}

/// A character added to the last field is added to the joined text.
proof fn lemma_join_push_char(fields: Seq<Seq<char>>, c: char)
    requires
        fields.len() >= 1,
    ensures
        join_lines(fields.drop_last().push(fields.last().push(c))) == join_lines(fields).push(c),
{
    let grown = fields.drop_last().push(fields.last().push(c));
    if fields.len() == 1 {
        assert(grown[0] == fields[0].push(c));
    } else {
        assert(grown.drop_last() =~= fields.drop_last());
        assert(join_lines(grown) =~= join_lines(fields).push(c));
    }
}

/// A text without a line feed is its own single field.
pub proof fn lemma_split_single_line(field: Seq<char>)
    requires
        single_line(field),
    ensures
        split_lines(field) == seq![field],
    decreases field.len(),
{
    if field.len() > 0 {
        assert(single_line(field.drop_last())) by {
            assert forall|i: int| 0 <= i < field.drop_last().len() implies #[trigger] field.drop_last()[i]
                != '\n' by {
                assert(field.drop_last()[i] == field[i]);
            }
        }
        lemma_split_single_line(field.drop_last());
        assert(field.last() == field[field.len() - 1]);
        assert(field.drop_last().push(field.last()) =~= field);
        assert(seq![field.drop_last()].drop_last() =~= Seq::<Seq<char>>::empty());
        assert(split_lines(field) =~= seq![field]);
    } else {
        assert(field =~= Seq::<char>::empty());
    }
}

/// A line feed and a field without one, written after a text, add that
/// field to the text's fields.
pub proof fn lemma_split_append_line(text: Seq<char>, field: Seq<char>)
    requires
        single_line(field),
    ensures
        split_lines(text + seq!['\n'] + field) == split_lines(text).push(field),
    decreases field.len(),
{
    let whole = text + seq!['\n'] + field;
    if field.len() == 0 {
        assert(whole.drop_last() =~= text);
        assert(whole.last() == '\n');
        assert(field =~= Seq::<char>::empty());
    } else {
        let shorter = field.drop_last();
        assert(single_line(shorter)) by {
            assert forall|i: int| 0 <= i < shorter.len() implies #[trigger] shorter[i] != '\n' by {
                assert(shorter[i] == field[i]);
            }
        }
        lemma_split_append_line(text, shorter);
        assert(whole.drop_last() =~= text + seq!['\n'] + shorter);
        assert(whole.last() == field[field.len() - 1]);
        let before = split_lines(text).push(shorter);
        assert(before.drop_last() =~= split_lines(text));
        assert(shorter.push(field.last()) =~= field);
    }
}

/// Splitting what was joined gives the fields back, where there is at least
/// one field and none holds a line feed.
pub proof fn lemma_split_join(fields: Seq<Seq<char>>)
    requires
        fields.len() >= 1,
        forall|k: int| 0 <= k < fields.len() ==> single_line(#[trigger] fields[k]),
    ensures
        split_lines(join_lines(fields)) == fields,
    decreases fields.len(),
{
    if fields.len() == 1 {
        lemma_split_single_line(fields[0]);
        assert(seq![fields[0]] =~= fields);
    } else {
        let front = fields.drop_last();
        assert forall|k: int| 0 <= k < front.len() implies single_line(#[trigger] front[k]) by {
            assert(front[k] == fields[k]);
        }
        lemma_split_join(front);
        assert(single_line(fields[fields.len() - 1]));
        lemma_split_append_line(join_lines(front), fields.last());
        assert(front.push(fields.last()) =~= fields);
    }
}

/// The player reads a `Start` back from its text, where neither the path
/// nor the policy text holds a line feed.
pub proof fn lemma_decode_encoded_start(path: Seq<char>, skip: Seq<char>)
    requires
        single_line(path),
        single_line(skip),
    ensures
        command_of(wire_text(CommandView::Start { path, skip })) == Ok::<
            CommandView,
            ProtocolError,
        >(CommandView::Start { path, skip }),
{
    reveal_strlit("START");
    let tag = "START"@;
    assert(single_line(tag));
    lemma_split_single_line(tag);
    lemma_split_append_line(tag, path);
    lemma_split_append_line(tag + seq!['\n'] + path, skip);
}

/// The controller reads `VideoEnded` back from its text.
pub proof fn lemma_decode_encoded_event()
    ensures
        event_of(wire_text(CommandView::VideoEnded)) == Ok::<CommandView, ProtocolError>(
            CommandView::VideoEnded,
        ),
{
    reveal_strlit("VideoEnded");
    let tag = "VideoEnded"@;
    assert(single_line(tag));
    lemma_split_single_line(tag);
}

/// The text that carries `cmd` over the connection.
pub fn encode(cmd: &ProjectorCommand) -> (text: String)
    ensures
        text@ == wire_text(cmd@),
{
    match cmd {
        ProjectorCommand::Start { path, skip } => {
            proof {
                reveal_strlit("\n");
            }
            let mut text = String::from_str("START");
            text.append("\n");
            text.append(path.as_str());
            text.append("\n");
            text.append(skip.as_str());
            assert("\n"@ =~= seq!['\n']);
            text
        },
        ProjectorCommand::VideoEnded => String::from_str("VideoEnded"),
    }
}

/// The fields of `text`, each as a string of its own.
pub fn fields(text: &str) -> (fields: Vec<String>)
    ensures
        texts(fields@) == split_lines(text@),
{
    let chars = chars_of(text);
    let mut done: Vec<String> = Vec::new();
    let mut start: usize = 0;
    let mut i: usize = 0;
    assert(chars@.subrange(0, 0) =~= Seq::<char>::empty());
    assert(chars@.take(0) =~= Seq::<char>::empty());
    assert(texts(done@).push(Seq::<char>::empty()) =~= seq![Seq::<char>::empty()]);
    while i < chars.len()
        invariant
            chars@ == text@,
            start <= i <= chars@.len(),
            texts(done@).push(chars@.subrange(start as int, i as int)) == split_lines(
                chars@.take(i as int),
            ),
        decreases chars@.len() - i,
    {
        let ghost before = split_lines(chars@.take(i as int));
        assert(chars@.take(i + 1).drop_last() =~= chars@.take(i as int));
        assert(chars@.take(i + 1).last() == chars@[i as int]);
        if chars[i] == '\n' {
            let piece = String::from_str(text.substring_char(start, i));
            let ghost grown = done@.push(piece);
            assert(texts(grown) =~= texts(done@).push(piece@));
            done.push(piece);
            start = i + 1;
            assert(chars@.subrange(start as int, i + 1) =~= Seq::<char>::empty());
        } else {
            assert(before.drop_last() =~= texts(done@));
            assert(chars@.subrange(start as int, i + 1) =~= chars@.subrange(
                start as int,
                i as int,
            ).push(chars@[i as int]));
        }
        i = i + 1;
    }
    assert(chars@.take(i as int) =~= chars@);
    let piece = String::from_str(text.substring_char(start, i));
    let ghost grown = done@.push(piece);
    assert(texts(grown) =~= texts(done@).push(piece@));
    done.push(piece);
    done
}

/// Decodes a text that the player has received. Only `START` with its two
/// fields is a command; anything else is refused and may be dropped.
pub fn decode_command(text: &str) -> (r: Result<ProjectorCommand, ProtocolError>)
    ensures
        match r {
            Ok(cmd) => command_of(text@) == Ok::<CommandView, ProtocolError>(cmd@),
            Err(e) => command_of(text@) == Err::<CommandView, ProtocolError>(e),
        },
{
    let mut parts = fields(text);
    proof {
        lemma_split_nonempty(text@);
        assert(texts(parts@).len() == parts@.len());
        assert(texts(parts@)[0] == parts@[0]@);
    }
    let tag = chars_of(parts[0].as_str());
    if !same_text(&tag, "START") {
        return Err(ProtocolError::UnknownTag);
    }
    if parts.len() < 3 {
        return Err(ProtocolError::MissingField);
    }
    proof {
        assert(texts(parts@)[1] == parts@[1]@);
        assert(texts(parts@)[2] == parts@[2]@);
    }
    let skip = parts.swap_remove(2);
    let path = parts.swap_remove(1);
    Ok(ProjectorCommand::Start { path, skip })
}

/// Decodes a text that the controller has received. Only `VideoEnded` is an
/// event; anything else is refused and may be dropped.
pub fn decode_event(text: &str) -> (r: Result<ProjectorCommand, ProtocolError>)
    ensures
        match r {
            Ok(cmd) => event_of(text@) == Ok::<CommandView, ProtocolError>(cmd@),
            Err(e) => event_of(text@) == Err::<CommandView, ProtocolError>(e),
        },
{
    let parts = fields(text);
    proof {
        lemma_split_nonempty(text@);
        assert(texts(parts@).len() == parts@.len());
        assert(texts(parts@)[0] == parts@[0]@);
    }
    let tag = chars_of(parts[0].as_str());
    if same_text(&tag, "VideoEnded") {
        Ok(ProjectorCommand::VideoEnded)
    } else {
        Err(ProtocolError::UnknownTag)
    }
}

} // verus!
