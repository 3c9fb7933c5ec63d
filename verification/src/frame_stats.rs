//! The statistics shown each frame: the three pipeline counters read back
//! from the GPU, and their text with thousands separators.

use vstd::prelude::*;
use num_format::{Buffer, Locale};
use crate::words::{collect_words, lemma_whole_words_unpadded, native_words};

verus! {

/// Number of counters in the renderer's pipeline-statistics query.
pub const NUM_PIPELINE_STATISTICS_QUERIES: u64 = 3;

/// Size in bytes of the statistics read-back and staging buffers.
pub const STATS_BUFFER_SIZE: u64 = 24;

/// Why the statistics could not be read back.
#[derive(Debug, Clone, Copy, PartialEq, Eq, Structural)]
pub enum StatsError {
    /// The mapped bytes are not a whole number of `u64` words.
    PartialWord,
    /// The words are not exactly one per counter.
    WrongLength,
}

/// Takes the counters from the read-back words, which must be exactly three.
pub fn stats_from_words(words: &[u64]) -> (r: Result<[u64; 3], StatsError>)
    ensures
        r is Ok <==> words@.len() == NUM_PIPELINE_STATISTICS_QUERIES,
        r matches Ok(s) ==> s@ == words@,
        r is Err ==> r == Err::<[u64; 3], StatsError>(StatsError::WrongLength),
{
    if words.len() != 3 {
        Err(StatsError::WrongLength)
    } else {
        let s = [words[0], words[1], words[2]];
        assert(s@ =~= words@);
        Ok(s)
    }
}

/// Decodes the mapped statistics buffer into the three counters.
pub fn decode_stats(bytes: &[u8]) -> (r: Result<[u64; 3], StatsError>)
    ensures
        r is Ok <==> bytes@.len() == STATS_BUFFER_SIZE,
        r matches Ok(s) ==> s@ == native_words(bytes@),
        bytes@.len() % 8 != 0 ==> r == Err::<[u64; 3], StatsError>(StatsError::PartialWord),
        bytes@.len() % 8 == 0 && bytes@.len() != STATS_BUFFER_SIZE
            ==> r == Err::<[u64; 3], StatsError>(StatsError::WrongLength),
{
    if bytes.len() % 8 != 0 {
        return Err(StatsError::PartialWord);
    }
    let words = collect_words(bytes);
    proof {
        lemma_whole_words_unpadded(bytes@);
    }
    stats_from_words(words.as_slice())
}

/// The character of a decimal digit.
pub open spec fn digit_char(d: nat) -> char {
    (48 + d) as char
}

/// The decimal digits of `n`, without leading zeros.
pub open spec fn decimal(n: nat) -> Seq<char>
    decreases n,
{
    if n < 10 {
        seq![digit_char(n)]
    } else {
        decimal(n / 10).push(digit_char(n % 10))
    }
}

/// Three decimal digits of `n < 1000`, with leading zeros.
pub open spec fn three_digits(n: nat) -> Seq<char> {
    seq![digit_char(n / 100), digit_char((n / 10) % 10), digit_char(n % 10)]
}

/// The decimal digits of `n` in groups of three separated by commas,
/// as English renders counts ("1,234,567").
pub open spec fn grouped_decimal(n: nat) -> Seq<char>
    decreases n,
{
    if n < 1000 {
        decimal(n)
    } else {
        grouped_decimal(n / 1000) + seq![','] + three_digits(n % 1000)
    }
}

/// Calls `num_format::Buffer::write_formatted` with `Locale::en` and copies
/// the text out.
/// Claimed: the text is the decimal number with a comma between groups of
/// three digits (the English locale's separator and standard grouping).
#[verifier::external_body]
fn format_count(n: u64) -> (s: String)
    ensures
        s@ == grouped_decimal(n as nat),
{
    let mut buf = Buffer::default();
    buf.write_formatted(&n, &Locale::en);
    buf.as_str().to_string()
}

/// The label of the vertex-shader counter.
pub open spec fn vertex_line(n: u64) -> Seq<char> {
    "Vertex Shader Calls: "@ + grouped_decimal(n as nat)
}

/// The label of the clipper-invocation counter.
pub open spec fn sent_line(n: u64) -> Seq<char> {
    "Triangles Sent:      "@ + grouped_decimal(n as nat)
}

/// The label of the clipper-output counter.
pub open spec fn rendered_line(n: u64) -> Seq<char> {
    "Triangles Rendered:  "@ + grouped_decimal(n as nat)
}

/// The statistics window's counter lines, in the order they are shown.
pub fn stat_lines(stats: &[u64; 3]) -> (lines: Vec<String>)
    ensures
        lines@.len() == 3,
        lines@[0]@ == vertex_line(stats@[0]),
        lines@[1]@ == sent_line(stats@[1]),
        lines@[2]@ == rendered_line(stats@[2]),
        lines@[0]@ == "Vertex Shader Calls: "@ + grouped_decimal(stats@[0] as nat),
        lines@[1]@ == "Triangles Sent:      "@ + grouped_decimal(stats@[1] as nat),
        lines@[2]@ == "Triangles Rendered:  "@ + grouped_decimal(stats@[2] as nat),
{
    let mut vertex = String::from_str("Vertex Shader Calls: ");
    let n0 = format_count(stats[0]);
    vertex.append(n0.as_str());
    let mut sent = String::from_str("Triangles Sent:      ");
    let n1 = format_count(stats[1]);
    sent.append(n1.as_str());
    let mut rendered = String::from_str("Triangles Rendered:  ");
    let n2 = format_count(stats[2]);
    rendered.append(n2.as_str());
    let mut lines: Vec<String> = Vec::new();
    lines.push(vertex);
    lines.push(sent);
    lines.push(rendered);
    lines
}

/// Whether the character is a decimal digit.
pub open spec fn is_digit(c: char) -> bool {
    48 <= c as int <= 57
}

/// The number a text of digits spells, commas skipped.
pub open spec fn digits_value(s: Seq<char>) -> int
    decreases s.len(),
{
    if s.len() == 0 {
        0
    } else if s.last() == ',' {
        digits_value(s.drop_last())
    } else {
        digits_value(s.drop_last()) * 10 + (s.last() as int - 48)
    }
}

/// The text starts with a group of `k` digits, one to three of them,
/// followed by the end or a comma.
pub open spec fn leads_with_group(s: Seq<char>, k: int) -> bool {
    &&& 1 <= k <= 3
    &&& k <= s.len()
    &&& forall|j: int| 0 <= j < k ==> is_digit(#[trigger] s[j])
    &&& (k == s.len() || s[k] == ',')
}

proof fn lemma_digit_char(d: nat)
    requires
        d < 10,
    ensures
        digit_char(d) as int == 48 + d,
        is_digit(digit_char(d)),
        digit_char(d) != ',',
{
}

proof fn lemma_digits_value_push(s: Seq<char>, c: char)
    requires
        c != ',',
    ensures
        digits_value(s.push(c)) == digits_value(s) * 10 + (c as int - 48),
{
    assert(s.push(c).drop_last() =~= s);
}

proof fn lemma_decimal(n: nat)
    ensures
        forall|i: int| 0 <= i < decimal(n).len() ==> #[trigger] is_digit(decimal(n)[i]),
        digits_value(decimal(n)) == n,
        1 <= decimal(n).len(),
        n < 10 ==> decimal(n).len() == 1,
        n < 100 ==> decimal(n).len() <= 2,
        n < 1000 ==> decimal(n).len() <= 3,
        n > 0 ==> decimal(n)[0] != '0',
        n == 0 ==> decimal(n) == seq!['0'],
    decreases n,
{
    lemma_digit_char(n % 10);
    if n >= 10 {
        lemma_decimal(n / 10);
        let p = decimal(n / 10);
        lemma_digits_value_push(p, digit_char(n % 10));
        assert(decimal(n) == p.push(digit_char(n % 10)));
        assert(n == (n / 10) * 10 + n % 10);
        assert(decimal(n)[0] == p[0]);
        assert forall|i: int| 0 <= i < decimal(n).len() implies #[trigger] is_digit(decimal(n)[i]) by {
            if i < p.len() {
                assert(decimal(n)[i] == p[i]);
            }
        }
    } else {
        assert(seq![digit_char(n)] =~= Seq::<char>::empty().push(digit_char(n)));
        lemma_digits_value_push(Seq::<char>::empty(), digit_char(n));
        if n == 0 {
            assert(digit_char(0) == '0');
        } else {
            assert(digit_char(n) as int != 48);
        }
    }
}

proof fn lemma_append_group(x: Seq<char>, r: nat)
    requires
        r < 1000,
    ensures
        digits_value(x + seq![','] + three_digits(r)) == digits_value(x) * 1000 + r,
{
    let a = digit_char(r / 100);
    let b = digit_char((r / 10) % 10);
    let c = digit_char(r % 10);
    lemma_digit_char(r / 100);
    lemma_digit_char((r / 10) % 10);
    lemma_digit_char(r % 10);
    let y0 = x.push(',');
    let y1 = y0.push(a);
    let y2 = y1.push(b);
    let y3 = y2.push(c);
    assert(x + seq![','] + three_digits(r) =~= y3);
    assert(y0.drop_last() =~= x);
    lemma_digits_value_push(y0, a);
    lemma_digits_value_push(y1, b);
    lemma_digits_value_push(y2, c);
    assert(r == (r / 100) * 100 + ((r / 10) % 10) * 10 + r % 10);
}

/// What the counter text says: read with its commas skipped it is the counter
/// in decimal, without leading zeros (a lone "0" for zero); it holds only
/// digits and commas; the first group has one to three digits and every
/// comma is followed by exactly three digits and then the end or another
/// comma.
pub proof fn grouped_decimal_is_the_number_in_groups_of_three(n: nat)
    ensures
        digits_value(grouped_decimal(n)) == n,
        forall|i: int| 0 <= i < grouped_decimal(n).len()
            ==> is_digit(#[trigger] grouped_decimal(n)[i]) || grouped_decimal(n)[i] == ',',
        forall|i: int| 0 <= i < grouped_decimal(n).len() && #[trigger] grouped_decimal(n)[i] == ',' ==> {
            &&& i + 3 < grouped_decimal(n).len()
            &&& is_digit(grouped_decimal(n)[i + 1])
            &&& is_digit(grouped_decimal(n)[i + 2])
            &&& is_digit(grouped_decimal(n)[i + 3])
            &&& (i + 4 == grouped_decimal(n).len() || grouped_decimal(n)[i + 4] == ',')
        },
        exists|k: int| #[trigger] leads_with_group(grouped_decimal(n), k),
        n > 0 ==> grouped_decimal(n)[0] != '0',
        n == 0 ==> grouped_decimal(n) == seq!['0'],
    decreases n,
{
    let g = grouped_decimal(n);
    if n < 1000 {
        lemma_decimal(n);
        assert(leads_with_group(g, g.len() as int));
        assert forall|i: int| 0 <= i < g.len() && #[trigger] g[i] == ',' implies false by {
            assert(is_digit(g[i]));
        }
    } else {
        let q = n / 1000;
        let r = n % 1000;
        grouped_decimal_is_the_number_in_groups_of_three(q);
        let p = grouped_decimal(q);
        let t = three_digits(r);
        lemma_append_group(p, r);
        lemma_digit_char(r / 100);
        lemma_digit_char((r / 10) % 10);
        lemma_digit_char(r % 10);
        assert(g == p + seq![','] + t);
        let pl = p.len() as int;
        assert(g.len() == pl + 4);
        assert forall|i: int| 0 <= i < pl implies g[i] == p[i] by {}
        assert(g[pl] == ',');
        assert(g[pl + 1] == t[0] && g[pl + 2] == t[1] && g[pl + 3] == t[2]);
        assert forall|i: int| 0 <= i < g.len() implies is_digit(#[trigger] g[i]) || g[i] == ',' by {
            if i < pl {
                assert(g[i] == p[i]);
            }
        }
        assert forall|i: int| 0 <= i < g.len() && #[trigger] g[i] == ',' implies {
            &&& i + 3 < g.len()
            &&& is_digit(g[i + 1])
            &&& is_digit(g[i + 2])
            &&& is_digit(g[i + 3])
            &&& (i + 4 == g.len() || g[i + 4] == ',')
        } by {
            if i < pl {
                assert(p[i] == ',');
                if i + 1 < pl { assert(g[i + 1] == p[i + 1]); }
                if i + 2 < pl { assert(g[i + 2] == p[i + 2]); }
                if i + 3 < pl { assert(g[i + 3] == p[i + 3]); }
                if i + 4 < pl { assert(g[i + 4] == p[i + 4]); }
            } else if i > pl {
                assert(is_digit(g[i]));
            }
        }
        let k = choose|k: int| #[trigger] leads_with_group(p, k);
        assert forall|j: int| 0 <= j < k implies is_digit(#[trigger] g[j]) by {
            assert(g[j] == p[j]);
        }
        assert(k == g.len() || g[k] == ',') by {
            if k < pl {
                assert(g[k] == p[k]);
            }
        }
        assert(leads_with_group(g, k));
        assert(g[0] == p[0]);
    }
}

/// The statistics buffers hold exactly one `u64` per counter.
pub proof fn stats_buffer_holds_each_counter()
    ensures
        STATS_BUFFER_SIZE == 8 * NUM_PIPELINE_STATISTICS_QUERIES,
{
}

} // verus!
