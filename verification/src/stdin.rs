//! How a line is fed to a command's stdin.
use vstd::prelude::*;
use vstd::string::*;
use vstd::utf8::char_is_scalar;
use vstd::utf8::char_u32_cast;
use vstd::utf8::encode_scalar;
use vstd::utf8::encode_utf8;
use vstd::utf8::is_scalar;

verus! {

/// Whether `c` has the Unicode property `White_Space`.
pub open spec fn is_white_space(c: char) -> bool {
    ||| '\u{9}' <= c <= '\u{d}'
    ||| c == '\u{20}'
    ||| c == '\u{85}'
    ||| c == '\u{a0}'
    ||| c == '\u{1680}'
    ||| '\u{2000}' <= c <= '\u{200a}'
    ||| c == '\u{2028}'
    ||| c == '\u{2029}'
    ||| c == '\u{202f}'
    ||| c == '\u{205f}'
    ||| c == '\u{3000}'
}

/// `s` without the white space at its start.
pub open spec fn trimmed_start(s: Seq<char>) -> Seq<char>
    decreases s.len(),
{
    if s.len() > 0 && is_white_space(s.first()) {
        trimmed_start(s.drop_first())
    } else {
        s
    }
}

/// `s` without the white space at its end.
pub open spec fn trimmed_end(s: Seq<char>) -> Seq<char>
    decreases s.len(),
{
    if s.len() > 0 && is_white_space(s.last()) {
        trimmed_end(s.drop_last())
    } else {
        s
    }
}

/// `s` without the white space around it.
pub open spec fn trimmed(s: Seq<char>) -> Seq<char> {
    trimmed_end(trimmed_start(s))
}

/// `str::trim` removes leading and trailing white space, by which it means
/// the characters with the Unicode property `White_Space`.
pub assume_specification[ str::trim ](s: &str) -> (rest: &str)
    ensures
        rest@ == trimmed(s@),
;

/// One thing to do with a command's stdin. Whether a step succeeds has no
/// bearing on the steps after it.
#[derive(Debug)]
pub enum StdinStep {
    /// Write all of these bytes.
    Write { bytes: Vec<u8> },
    /// Flush what was written.
    Flush,
}

/// What a [`StdinStep`] does.
pub enum StdinStepView {
    Write { bytes: Seq<u8> },
    Flush,
}

impl View for StdinStep {
    type V = StdinStepView;

    open spec fn view(&self) -> StdinStepView {
        match self {
            StdinStep::Write { bytes } => StdinStepView::Write { bytes: bytes@ },
            StdinStep::Flush => StdinStepView::Flush,
        }
    }
}

/// What a list of steps does.
pub open spec fn steps_view(steps: Seq<StdinStep>) -> Seq<StdinStepView> {
    steps.map_values(|step: StdinStep| step@)
}

/// The steps that feed `line`: its text without the white space around it,
/// then a newline, then a flush.
pub open spec fn feeding(line: Seq<char>) -> Seq<StdinStepView> {
    seq![
        StdinStepView::Write { bytes: encode_utf8(trimmed(line)) },
        StdinStepView::Write { bytes: seq![0x0au8] },
        StdinStepView::Flush,
    ]
}

/// The steps that feed `line` to a command.
pub fn stdin_steps(line: &str) -> (steps: Vec<StdinStep>)
    ensures
        steps_view(steps@) == feeding(line@),
        steps@.len() == 3,
        steps@[0] matches StdinStep::Write { bytes } && bytes@ == encode_utf8(trimmed(line@)),
        steps@[1] matches StdinStep::Write { bytes } && bytes@ == seq![0x0au8],
        steps@[2] is Flush,
{
    let steps = vec![
        StdinStep::Write { bytes: line.trim().as_bytes_vec() },
        StdinStep::Write { bytes: vec![0x0au8] },
        StdinStep::Flush,
    ];
    assert(steps_view(steps@)[1]->bytes =~= seq![0x0au8]);
    assert(steps_view(steps@) =~= feeding(line@));
    steps
}

/// The bytes that `steps` write, one step after the other.
pub open spec fn fed_bytes(steps: Seq<StdinStepView>) -> Seq<u8>
    decreases steps.len(),
{
    if steps.len() == 0 {
        Seq::empty()
    } else {
        let before = fed_bytes(steps.drop_last());
        match steps.last() {
            StdinStepView::Write { bytes } => before + bytes,
            StdinStepView::Flush => before,
        }
    }
}

/// Whether `s` is white space alone.
pub open spec fn all_white_space(s: Seq<char>) -> bool {
    forall|i: int| 0 <= i < s.len() ==> is_white_space(#[trigger] s[i])
}

proof fn lemma_trimmed_start_is_suffix(s: Seq<char>)
    ensures
        trimmed_start(s).len() <= s.len(),
        trimmed_start(s) == s.skip(s.len() - trimmed_start(s).len()),
        trimmed_start(s).len() > 0 ==> !is_white_space(trimmed_start(s).first()),
    decreases s.len(),
{
    if s.len() > 0 && is_white_space(s.first()) {
        lemma_trimmed_start_is_suffix(s.drop_first());
        assert(trimmed_start(s) =~= s.skip(s.len() - trimmed_start(s).len()));
    } else {
        assert(trimmed_start(s) =~= s.skip(0));
    }
}

proof fn lemma_trimmed_end_is_prefix(s: Seq<char>)
    ensures
        trimmed_end(s).len() <= s.len(),
        trimmed_end(s) == s.take(trimmed_end(s).len() as int),
        trimmed_end(s).len() > 0 ==> !is_white_space(trimmed_end(s).last()),
    decreases s.len(),
{
    if s.len() > 0 && is_white_space(s.last()) {
        lemma_trimmed_end_is_prefix(s.drop_last());
        assert(trimmed_end(s) =~= s.take(trimmed_end(s).len() as int));
    } else {
        assert(trimmed_end(s) =~= s.take(s.len() as int));
    }
}

proof fn lemma_white_space_before(space: Seq<char>, s: Seq<char>)
    requires
        all_white_space(space),
    ensures
        trimmed_start(space + s) == trimmed_start(s),
    decreases space.len(),
{
    if space.len() == 0 {
        assert(space + s =~= s);
    } else {
        let rest = space.drop_first();
        assert forall|i: int| 0 <= i < rest.len() implies is_white_space(#[trigger] rest[i]) by {
            assert(rest[i] == space[i + 1]);
        }
        assert(is_white_space(space[0]));
        assert((space + s).drop_first() =~= rest + s);
        lemma_white_space_before(rest, s);
    }
}

proof fn lemma_white_space_after(s: Seq<char>, space: Seq<char>)
    requires
        all_white_space(space),
    ensures
        trimmed_end(s + space) == trimmed_end(s),
    decreases space.len(),
{
    if space.len() == 0 {
        assert(s + space =~= s);
    } else {
        let rest = space.drop_last();
        assert forall|i: int| 0 <= i < rest.len() implies is_white_space(#[trigger] rest[i]) by {
            assert(rest[i] == space[i]);
        }
        assert(is_white_space(space[space.len() - 1]));
        assert((s + space).drop_last() =~= s + rest);
        lemma_white_space_after(s, rest);
    }
}

proof fn lemma_trimmed_start_of_concat(s: Seq<char>, t: Seq<char>)
    ensures
        trimmed_start(s + t) == if trimmed_start(s).len() > 0 {
            trimmed_start(s) + t
        } else {
            trimmed_start(t)
        },
    decreases s.len(),
{
    if s.len() == 0 {
        assert(s + t =~= t);
    } else {
        assert((s + t).first() == s.first());
        if is_white_space(s.first()) {
            assert((s + t).drop_first() =~= s.drop_first() + t);
            lemma_trimmed_start_of_concat(s.drop_first(), t);
        }
    }
}

/// What is left of a line has no white space at either end.
pub proof fn law_trimmed_ends_are_bare(s: Seq<char>)
    ensures
        trimmed(s).len() > 0 ==> !is_white_space(trimmed(s).first()) && !is_white_space(
            trimmed(s).last(),
        ),
        trimmed(trimmed(s)) == trimmed(s),
{
    lemma_trimmed_start_is_suffix(s);
    lemma_trimmed_end_is_prefix(trimmed_start(s));
}

/// White space around a line makes no difference to what is fed: least of all
/// a newline that the sender left at its end.
pub proof fn law_surrounding_white_space_is_dropped(
    before: Seq<char>,
    line: Seq<char>,
    after: Seq<char>,
)
    requires
        all_white_space(before),
        all_white_space(after),
    ensures
        feeding(before + line + after) == feeding(line),
{
    assert(before + line + after =~= before + (line + after));
    lemma_white_space_before(before, line + after);
    lemma_trimmed_start_of_concat(line, after);
    if trimmed_start(line).len() > 0 {
        lemma_white_space_after(trimmed_start(line), after);
    } else {
        lemma_white_space_before(after, Seq::empty());
        assert(after + Seq::<char>::empty() =~= after);
        assert(trimmed_start(line) =~= Seq::empty());
    }
}

proof fn lemma_fed_bytes(line: Seq<char>)
    ensures
        fed_bytes(feeding(line)) == encode_utf8(trimmed(line)).push(0x0au8),
{
    let steps = feeding(line);
    let text = encode_utf8(trimmed(line));
    let two = steps.drop_last();
    let one = two.drop_last();
    assert(one.drop_last() =~= Seq::empty());
    assert(fed_bytes(one.drop_last()) =~= Seq::empty());
    assert(one.last() == steps[0]);
    assert(fed_bytes(one) =~= text);
    assert(two.last() == steps[1]);
    assert(fed_bytes(two) =~= text + seq![0x0au8]);
    assert(steps.last() == StdinStepView::Flush);
    assert(text + seq![0x0au8] =~= text.push(0x0au8));
}

proof fn lemma_encode_utf8_of_push(s: Seq<char>, c: char)
    ensures
        encode_utf8(s.push(c)) == encode_utf8(s) + encode_scalar(c as u32),
    decreases s.len(),
{
    if s.len() == 0 {
        assert(s.push(c).drop_first() =~= Seq::empty());
        assert(encode_utf8(s.push(c).drop_first()) =~= Seq::empty());
        assert(encode_utf8(s.push(c)) =~= encode_utf8(s) + encode_scalar(c as u32));
    } else {
        assert(s.push(c).drop_first() =~= s.drop_first().push(c));
        lemma_encode_utf8_of_push(s.drop_first(), c);
        assert(encode_utf8(s.push(c)) =~= encode_utf8(s) + encode_scalar(c as u32));
    }
}

/// A command reads the text of the line and a newline after it, in UTF-8.
pub proof fn law_line_is_fed_with_a_newline(line: Seq<char>)
    ensures
        fed_bytes(feeding(line)) == encode_utf8(trimmed(line).push('\n')),
{
    lemma_fed_bytes(line);
    lemma_encode_utf8_of_push(trimmed(line), '\n');
    assert(0x0au32 & 0x7f == 0x0a) by (bit_vector);
    assert(encode_scalar('\n' as u32) =~= seq![0x0au8]);
}

proof fn lemma_no_newline_in_scalar(scalar: u32)
    requires
        scalar != 0x0a,
        is_scalar(scalar),
    ensures
        !encode_scalar(scalar).contains(0x0au8),
{
    assert(scalar <= 0x7f && scalar != 0x0a ==> (scalar & 0x7f) as u8 != 0x0a) by (bit_vector);
    assert((0xC0 | ((scalar >> 6) & 0x1F) as u8) != 0x0a) by (bit_vector);
    assert((0xE0 | ((scalar >> 12) & 0x0F) as u8) != 0x0a) by (bit_vector);
    assert((0xF0 | ((scalar >> 18) & 0x7) as u8) != 0x0a) by (bit_vector);
    assert((0x80 | (scalar & 0x3F) as u8) != 0x0a) by (bit_vector);
    assert((0x80 | ((scalar >> 6) & 0x3F) as u8) != 0x0a) by (bit_vector);
    assert((0x80 | ((scalar >> 12) & 0x3F) as u8) != 0x0a) by (bit_vector);
}

proof fn lemma_no_newline_in_text(s: Seq<char>)
    requires
        !s.contains('\n'),
    ensures
        !encode_utf8(s).contains(0x0au8),
    decreases s.len(),
{
    if s.len() > 0 {
        let rest = s.drop_first();
        assert(!rest.contains('\n')) by {
            assert forall|i: int| 0 <= i < rest.len() implies #[trigger] rest[i] != '\n' by {
                assert(rest[i] == s[i + 1]);
            }
        }
        assert(s[0] != '\n');
        char_is_scalar(s[0]);
        char_u32_cast(s[0], s[0] as u32);
        lemma_no_newline_in_scalar(s[0] as u32);
        lemma_no_newline_in_text(rest);
        let head = encode_scalar(s[0] as u32);
        let tail = encode_utf8(rest);
        assert forall|i: int| 0 <= i < (head + tail).len() implies #[trigger] (head + tail)[i]
            != 0x0au8 by {
            if i < head.len() {
                assert(head.contains(head[i]));
            } else {
                assert(tail.contains(tail[i - head.len()]));
            }
        }
    }
}

/// A line without newlines reaches the command as exactly one line: the only
/// newline among the bytes is the last of them.
pub proof fn law_line_is_fed_as_one_line(line: Seq<char>)
    requires
        !line.contains('\n'),
    ensures
        fed_bytes(feeding(line)).len() > 0,
        forall|i: int|
            0 <= i < fed_bytes(feeding(line)).len() ==> (#[trigger] fed_bytes(feeding(line))[i]
                == 0x0au8 <==> i == fed_bytes(feeding(line)).len() - 1),
{
    let text = trimmed(line);
    lemma_fed_bytes(line);
    lemma_trimmed_start_is_suffix(line);
    lemma_trimmed_end_is_prefix(trimmed_start(line));
    assert(!text.contains('\n')) by {
        assert forall|i: int| 0 <= i < text.len() implies #[trigger] text[i] != '\n' by {
            assert(text[i] == line[line.len() - trimmed_start(line).len() + i]);
        }
    }
    lemma_no_newline_in_text(text);
    let bytes = encode_utf8(text);
    assert forall|i: int| 0 <= i < bytes.len() implies #[trigger] bytes[i] != 0x0au8 by {
        assert(bytes.contains(bytes[i]));
    }
}

/// What is read off a step is what it does.
pub proof fn law_step_is_read_whole(step: StdinStep)
    ensures
        step matches StdinStep::Write { bytes } ==> step@ == (StdinStepView::Write {
            bytes: bytes@,
        }),
        step is Flush <==> step@ is Flush,
{
}

/// What a list of steps does is what its steps do, each in its place.
pub proof fn law_steps_are_read_in_order(steps: Seq<StdinStep>)
    ensures
        steps_view(steps).len() == steps.len(),
        forall|i: int| 0 <= i < steps.len() ==> #[trigger] steps_view(steps)[i] == steps[i]@,
{
}

/// White space is what Unicode counts as such, here by the numbers of the
/// characters.
pub proof fn law_white_space_characters(c: char)
    ensures
        is_white_space(c) <==> {
            let n = c as int;
            ||| 9 <= n <= 13
            ||| n == 32 || n == 133 || n == 160
            ||| n == 5760
            ||| 8192 <= n <= 8202
            ||| n == 8232 || n == 8233 || n == 8239 || n == 8287
            ||| n == 12288
        },
{
}

/// A text is white space alone where it holds no other character.
pub proof fn law_when_all_is_white_space(s: Seq<char>)
    ensures
        all_white_space(s) <==> !(exists|i: int|
            0 <= i < s.len() && !is_white_space(#[trigger] s[i])),
{
}

/// To trim a line is to cut its middle out: all that is cut off, on either
/// side, is white space, and what is left has none at its ends.
pub proof fn law_trimmed_is_the_middle(s: Seq<char>) -> (ends: (int, int))
    ensures
        0 <= ends.0 <= ends.1 <= s.len(),
        trimmed(s) == s.subrange(ends.0, ends.1),
        forall|i: int| 0 <= i < ends.0 ==> is_white_space(#[trigger] s[i]),
        forall|i: int| ends.1 <= i < s.len() ==> is_white_space(#[trigger] s[i]),
        ends.0 < ends.1 ==> !is_white_space(s[ends.0]) && !is_white_space(s[ends.1 - 1]),
{
    let rest = trimmed_start(s);
    lemma_trimmed_start_is_suffix(s);
    lemma_trimmed_end_is_prefix(rest);
    lemma_cut_off_is_white_space(s);
    lemma_cut_off_at_the_end_is_white_space(rest);
    let from = s.len() - rest.len();
    let to = from + trimmed(s).len();
    assert(trimmed(s) =~= s.subrange(from, to));
    assert forall|i: int| to <= i < s.len() implies is_white_space(#[trigger] s[i]) by {
        assert(s[i] == rest[i - from]);
    }
    if from < to {
        assert(s[from] == trimmed(s).first());
        assert(s[from] == rest.first());
        assert(s[to - 1] == trimmed(s).last());
    }
    (from, to)
}

proof fn lemma_cut_off_is_white_space(s: Seq<char>)
    ensures
        forall|i: int|
            0 <= i < s.len() - trimmed_start(s).len() ==> is_white_space(#[trigger] s[i]),
    decreases s.len(),
{
    if s.len() > 0 && is_white_space(s.first()) {
        let rest = s.drop_first();
        lemma_cut_off_is_white_space(rest);
        assert forall|i: int| 0 <= i < s.len() - trimmed_start(s).len() implies is_white_space(
            #[trigger] s[i],
        ) by {
            if i > 0 {
                assert(s[i] == rest[i - 1]);
            }
        }
    }
}

proof fn lemma_cut_off_at_the_end_is_white_space(s: Seq<char>)
    ensures
        forall|i: int| trimmed_end(s).len() <= i < s.len() ==> is_white_space(#[trigger] s[i]),
    decreases s.len(),
{
    if s.len() > 0 && is_white_space(s.last()) {
        let rest = s.drop_last();
        lemma_cut_off_at_the_end_is_white_space(rest);
        assert forall|i: int| trimmed_end(s).len() <= i < s.len() implies is_white_space(
            #[trigger] s[i],
        ) by {
            if i < s.len() - 1 {
                assert(s[i] == rest[i]);
            }
        }
    }
}

/// Whatever the line, what is fed ends in a flush, which is the only one: every
/// step before it writes, so that nothing is left unflushed.
pub proof fn law_feeding_ends_in_a_flush(line: Seq<char>)
    ensures
        feeding(line).len() > 0,
        feeding(line).last() == StdinStepView::Flush,
        forall|i: int| 0 <= i < feeding(line).len() - 1 ==> #[trigger] feeding(line)[i] is Write,
{
}

/// Whatever the line, its text is written in one step and the newline in
/// another after it, so that a failure to write the text costs no newline.
pub proof fn law_text_and_newline_are_written_apart(line: Seq<char>)
    ensures
        feeding(line).len() == 3,
        feeding(line)[0] matches StdinStepView::Write { bytes } && bytes == encode_utf8(
            trimmed(line),
        ),
        feeding(line)[1] matches StdinStepView::Write { bytes } && bytes.len() == 1 && bytes[0]
            == 10,
{
}

/// The bytes fed are those of the steps that write, one after the other. A
/// flush adds none.
pub proof fn law_fed_bytes_add_up(steps: Seq<StdinStepView>, bytes: Seq<u8>)
    ensures
        fed_bytes(Seq::empty()).len() == 0,
        fed_bytes(steps.push(StdinStepView::Write { bytes })) == fed_bytes(steps) + bytes,
        fed_bytes(steps.push(StdinStepView::Flush)) == fed_bytes(steps),
{
    assert(steps.push(StdinStepView::Write { bytes }).drop_last() =~= steps);
    assert(steps.push(StdinStepView::Flush).drop_last() =~= steps);
}

} // verus!
