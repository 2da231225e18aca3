//! The output record format: one line `school_id|url` per candidate.

use vstd::prelude::*;

use crate::canon::CanonicalUrl;
use crate::text::push_char;

verus! {

use vstd::string::StringExecFns;

pub open spec fn spec_digit(d: int) -> char {
    if d == 0 {
        '0'
    } else if d == 1 {
        '1'
    } else if d == 2 {
        '2'
    } else if d == 3 {
        '3'
    } else if d == 4 {
        '4'
    } else if d == 5 {
        '5'
    } else if d == 6 {
        '6'
    } else if d == 7 {
        '7'
    } else if d == 8 {
        '8'
    } else {
        '9'
    }
}

/// The decimal digits of a non-negative number, most significant first.
pub open spec fn spec_udecimal(n: nat) -> Seq<char>
    decreases n,
{
    if n < 10 {
        seq![spec_digit(n as int)]
    } else {
        spec_udecimal(n / 10) + seq![spec_digit((n % 10) as int)]
    }
}

/// The decimal rendering of an integer, with a leading minus sign when
/// negative.
pub open spec fn spec_decimal(n: int) -> Seq<char> {
    if n < 0 {
        seq!['-'] + spec_udecimal((-n) as nat)
    } else {
        spec_udecimal(n as nat)
    }
}

fn format_u32(n: u32) -> (r: String)
    ensures
        r@ == spec_udecimal(n as nat),
{
    let mut rev: Vec<char> = Vec::new();
    let mut m = n;
    proof {
        assert(spec_udecimal(n as nat) + rev@.reverse() =~= spec_udecimal(n as nat));
        assert(spec_udecimal(n as nat) == spec_udecimal(m as nat) + rev@.reverse());
    }
    loop
        invariant
            n == 0 ==> m == 0,
            m > 0 ==> spec_udecimal(n as nat) == spec_udecimal(m as nat) + rev@.reverse(),
            m == 0 ==> rev@.len() > 0 || n == 0,
            m == 0 && n > 0 ==> spec_udecimal(n as nat) == rev@.reverse(),
            m == 0 && n == 0 ==> rev@.len() == 0,
        ensures
            n > 0 ==> spec_udecimal(n as nat) == rev@.reverse(),
            n == 0 ==> rev@.len() == 0,
        decreases m,
    {
        if m == 0 {
            break ;
        }
        let ghost pre = rev@;
        let d = (m % 10) as u8;
        let c: char = if d == 0 {
            '0'
        } else if d == 1 {
            '1'
        } else if d == 2 {
            '2'
        } else if d == 3 {
            '3'
        } else if d == 4 {
            '4'
        } else if d == 5 {
            '5'
        } else if d == 6 {
            '6'
        } else if d == 7 {
            '7'
        } else if d == 8 {
            '8'
        } else {
            '9'
        };
        rev.push(c);
        proof {
            assert(c == spec_digit((m % 10) as int));
            assert(rev@.reverse() =~= seq![c] + pre.reverse());
            if m >= 10 {
                assert(spec_udecimal(m as nat) == spec_udecimal((m / 10) as nat) + seq![c]);
                assert(spec_udecimal((m / 10) as nat) + rev@.reverse() =~= spec_udecimal(
                    m as nat,
                ) + pre.reverse());
            } else {
                assert(spec_udecimal(m as nat) =~= seq![c]);
                assert(rev@.reverse() =~= spec_udecimal(m as nat) + pre.reverse());
            }
        }
        m = m / 10;
    }
    let mut s = String::new();
    if n == 0 {
        push_char(&mut s, '0');
        proof {
            assert(s@ =~= spec_udecimal(0));
        }
        return s;
    }
    let total = rev.len();
    let mut idx: usize = 0;
    while idx < total
        invariant
            total == rev@.len(),
            spec_udecimal(n as nat) == rev@.reverse(),
            0 <= idx <= total,
            s@ == rev@.reverse().take(idx as int),
        decreases total - idx,
    {
        let ghost pre = s@;
        push_char(&mut s, rev[total - 1 - idx]);
        proof {
            assert(rev@.reverse()[idx as int] == rev@[total - 1 - idx]);
            assert(s@ =~= rev@.reverse().take(idx + 1));
        }
        idx = idx + 1;
    }
    proof {
        assert(rev@.reverse().take(total as int) =~= rev@.reverse());
    }
    s
}

/// The school identifier in decimal.
pub fn format_school_id(school_id: i32) -> (r: String)
    ensures
        r@ == spec_decimal(school_id as int),
{
    if school_id < 0 {
        let wide: i64 = school_id as i64;
        let magnitude: u32 = (-wide) as u32;
        let mut s = String::new();
        push_char(&mut s, '-');
        let digits = format_u32(magnitude);
        s.append(digits.as_str());
        proof {
            assert(s@ =~= seq!['-'] + spec_udecimal(magnitude as nat));
        }
        s
    } else {
        format_u32(school_id as u32)
    }
}

/// One output line: the school identifier, a separator bar, the candidate
/// URL, and a newline.
pub open spec fn spec_record(school_id: int, url_text: Seq<char>) -> Seq<char> {
    spec_decimal(school_id) + seq!['|'] + url_text + seq!['\n']
}

/// Render one output record.
pub fn format_record(school_id: i32, url: &CanonicalUrl) -> (r: String)
    ensures
        r@ == spec_record(school_id as int, url.text()),
{
    let mut s = format_school_id(school_id);
    push_char(&mut s, '|');
    let text = url.to_text();
    s.append(text.as_str());
    push_char(&mut s, '\n');
    proof {
        assert(s@ =~= spec_record(school_id as int, url.text()));
    }
    s
}

/// Render the records of one school's candidates, in discovery order.
pub fn render_records(school_id: i32, urls: &Vec<CanonicalUrl>) -> (r: Vec<String>)
    ensures
        r@.len() == urls@.len(),
        forall|i: int|
            0 <= i < urls@.len() ==> (#[trigger] r.deep_view()[i]) == spec_record(
                school_id as int,
                urls@[i].text(),
            ),
{
    let mut r: Vec<String> = Vec::new();
    let mut i: usize = 0;
    while i < urls.len()
        invariant
            0 <= i <= urls@.len(),
            r@.len() == i,
            forall|j: int|
                0 <= j < i ==> (#[trigger] r.deep_view()[j]) == spec_record(
                    school_id as int,
                    urls@[j].text(),
                ),
        decreases urls@.len() - i,
    {
        let ghost pre = r.deep_view();
        let ghost pre_vec = r@;
        let line = format_record(school_id, &urls[i]);
        r.push(line);
        proof {
            assert forall|j: int|
                0 <= j < i + 1 implies (#[trigger] r.deep_view()[j]) == spec_record(
                school_id as int,
                urls@[j].text(),
            ) by {
                if j < i {
                    assert(r@[j] == pre_vec[j]);
                    assert(pre[j] == spec_record(school_id as int, urls@[j].text()));
                }
            }
        }
        i = i + 1;
    }
    r
}

proof fn lemma_udecimal_digits_only(n: nat)
    ensures
        forall|i: int|
            0 <= i < spec_udecimal(n).len() ==> '0' as int <= #[trigger] spec_udecimal(n)[i] as int
                <= '9' as int,
    decreases n,
{
    if n < 10 {
    } else {
        lemma_udecimal_digits_only(n / 10);
        assert forall|i: int|
            0 <= i < spec_udecimal(n).len() implies '0' as int <= #[trigger] spec_udecimal(
            n,
        )[i] as int <= '9' as int by {
            if i < spec_udecimal(n / 10).len() {
                assert(spec_udecimal(n)[i] == spec_udecimal(n / 10)[i]);
            }
        }
    }
}

/// Law (output integrity): a record is exactly one line. It ends with a
/// newline and holds no other, for any URL text without a newline — the
/// url crate's serializations never carry one.
pub proof fn lemma_record_single_line(school_id: int, url_text: Seq<char>)
    requires
        !url_text.contains('\n'),
    ensures
        spec_record(school_id, url_text).len() > 0,
        spec_record(school_id, url_text).last() == '\n',
        forall|i: int|
            0 <= i < spec_record(school_id, url_text).len() - 1 ==> #[trigger] spec_record(
                school_id,
                url_text,
            )[i] != '\n',
{
    let rec = spec_record(school_id, url_text);
    let dec = spec_decimal(school_id);
    if school_id < 0 {
        lemma_udecimal_digits_only((-school_id) as nat);
    } else {
        lemma_udecimal_digits_only(school_id as nat);
    }
    assert forall|i: int| 0 <= i < rec.len() - 1 implies #[trigger] rec[i] != '\n' by {
        if i < dec.len() {
            assert(rec[i] == dec[i]);
            if school_id < 0 {
                if i > 0 {
                    assert(dec[i] == spec_udecimal((-school_id) as nat)[i - 1]);
                }
            }
        } else if i == dec.len() {
            assert(rec[i] == '|');
        } else {
            let k = i - dec.len() - 1;
            assert(rec[i] == url_text[k]);
            assert(url_text[k] != '\n') by {
                if url_text[k] == '\n' {
                    assert(url_text.contains('\n'));
                }
            }
        }
    }
}

} // verus!
