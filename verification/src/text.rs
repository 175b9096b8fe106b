use vstd::prelude::*;

verus! {

/// A decimal digit character.
pub open spec fn is_digit(c: char) -> bool {
    48 <= c as u32 <= 57
}

/// The ISO `YYYY-MM-DD` form a provider date arrives in.
pub open spec fn is_iso_date(s: Seq<char>) -> bool {
    &&& s.len() == 10
    &&& s[4] == '-'
    &&& s[7] == '-'
    &&& forall|i: int| 0 <= i < 10 && i != 4 && i != 7 ==> is_digit(#[trigger] s[i])
}

/// The `MM/DD/YYYY` display form of an ISO date: month, day and year, with
/// slashes for separators.
pub open spec fn display_of_iso(s: Seq<char>) -> Seq<char> {
    s.subrange(5, 7) + seq!['/'] + s.subrange(8, 10) + seq!['/'] + s.subrange(0, 4)
}

/// The shape of a reformatted date: `MM/DD/YYYY`.
pub open spec fn is_display_date(s: Seq<char>) -> bool {
    &&& s.len() == 10
    &&& s[2] == '/'
    &&& s[5] == '/'
    &&& forall|i: int| 0 <= i < 10 && i != 2 && i != 5 ==> is_digit(#[trigger] s[i])
}

/// The inverse transform: the ISO date a `MM/DD/YYYY` display form came from.
pub open spec fn iso_of_display(s: Seq<char>) -> Seq<char> {
    s.subrange(6, 10) + seq!['-'] + s.subrange(0, 2) + seq!['-'] + s.subrange(3, 5)
}

/// Date reformatting is a bijective transform: it sends an ISO date to a
/// well-shaped display date, and given the separator convention the original
/// can be read back; likewise in the other direction.
pub proof fn lemma_date_reformat_bijective(s: Seq<char>, t: Seq<char>)
    requires
        is_iso_date(s),
        is_display_date(t),
    ensures
        is_display_date(display_of_iso(s)),
        iso_of_display(display_of_iso(s)) == s,
        is_iso_date(iso_of_display(t)),
        display_of_iso(iso_of_display(t)) == t,
{
    assert(iso_of_display(display_of_iso(s)) =~= s);
    assert(display_of_iso(iso_of_display(t)) =~= t);
}

/// Reformats an ISO `YYYY-MM-DD` date into its `MM/DD/YYYY` display form.
pub fn reformat_date(date: &str) -> (r: String)
    requires
        is_iso_date(date@),
    ensures
        r@ == display_of_iso(date@),
{
    let month: &str = date.substring_char(5, 7);
    let day: &str = date.substring_char(8, 10);
    let year: &str = date.substring_char(0, 4);
    let mut r: String = String::from_str(month);
    r.append("/");
    r.append(day);
    r.append("/");
    r.append(year);
    proof {
        reveal_strlit("/");
        assert(r@ =~= display_of_iso(date@));
    }
    r
}

/// Whether `s` has the ISO `YYYY-MM-DD` shape.
pub fn check_iso_date(s: &str) -> (b: bool)
    ensures
        b == is_iso_date(s@),
{
    let n: usize = s.unicode_len();
    if n != 10 {
        return false;
    }
    let mut i: usize = 0;
    while i < 10
        invariant
            s@.len() == 10,
            0 <= i <= 10,
            forall|j: int|
                0 <= j < i ==> if j == 4 || j == 7 {
                    s@[j] == '-'
                } else {
                    is_digit(s@[j])
                },
        decreases 10 - i,
    {
        let c: char = s.get_char(i);
        if i == 4 || i == 7 {
            if c != '-' {
                return false;
            }
        } else {
            let u: u32 = c as u32;
            if u < 48 || u > 57 {
                return false;
            }
        }
        i = i + 1;
    }
    true
}

/// The position of the first `'T'` in `s` at or after `from`, or the length
/// of `s` if there is none.
pub open spec fn first_t(s: Seq<char>, from: int) -> int
    decreases s.len() - from when 0 <= from <= s.len()
{
    if from >= s.len() {
        s.len() as int
    } else if s[from] == 'T' {
        from
    } else {
        first_t(s, from + 1)
    }
}

/// Whether an ISO datetime holds a time-of-day portion after a `'T'`.
pub open spec fn has_time_part(s: Seq<char>) -> bool {
    first_t(s, 0) < s.len()
}

/// The time-of-day portion of an ISO `YYYY-MM-DDTHH:MM` datetime: what
/// stands between the first `'T'` and the next one, or the end.
pub open spec fn time_part_of(s: Seq<char>) -> Seq<char> {
    s.subrange(first_t(s, 0) + 1, first_t(s, first_t(s, 0) + 1))
}

/// A scan that saw no `'T'` before `k`, and one (or the end) at `k`, found
/// the first `'T'`.
proof fn lemma_first_t_is(s: Seq<char>, from: int, k: int)
    requires
        0 <= from <= k <= s.len(),
        forall|j: int| from <= j < k ==> s[j] != 'T',
        k == s.len() || s[k] == 'T',
    ensures
        first_t(s, from) == k,
    decreases k - from,
{
    if from < k {
        lemma_first_t_is(s, from + 1, k);
    }
}

/// Extracts the time-of-day portion of an ISO datetime: the text between the
/// first `'T'` and the next one or the end. The date portion is discarded.
/// Yields nothing when the datetime holds no `'T'` at all.
pub fn extract_time(s: &str) -> (r: Option<String>)
    ensures
        r is Some <==> has_time_part(s@),
        r matches Some(t) ==> t@ == time_part_of(s@),
{
    let n: usize = s.unicode_len();
    let mut i: usize = 0;
    while i < n
        invariant_except_break
            n == s@.len(),
            0 <= i <= n,
            forall|j: int| 0 <= j < i ==> s@[j] != 'T',
        ensures
            n == s@.len(),
            0 <= i <= n,
            forall|j: int| 0 <= j < i ==> s@[j] != 'T',
            i < n ==> s@[i as int] == 'T',
        decreases n - i,
    {
        if s.get_char(i) == 'T' {
            break ;
        }
        i = i + 1;
    }
    proof {
        lemma_first_t_is(s@, 0, i as int);
    }
    if i == n {
        return None;
    }
    let mut j: usize = i + 1;
    while j < n
        invariant_except_break
            n == s@.len(),
            i < n,
            i + 1 <= j <= n,
            forall|k: int| i + 1 <= k < j ==> s@[k] != 'T',
        ensures
            n == s@.len(),
            i < n,
            i + 1 <= j <= n,
            forall|k: int| i + 1 <= k < j ==> s@[k] != 'T',
            j < n ==> s@[j as int] == 'T',
        decreases n - j,
    {
        if s.get_char(j) == 'T' {
            break ;
        }
        j = j + 1;
    }
    proof {
        lemma_first_t_is(s@, i + 1, j as int);
    }
    let part: &str = s.substring_char(i + 1, j);
    Some(String::from_str(part))
}

/// Joins three pieces of text into one.
pub fn concat3(a: &str, b: &str, c: &str) -> (r: String)
    ensures
        r@ == a@ + b@ + c@,
{
    let mut r: String = String::from_str(a);
    r.append(b);
    r.append(c);
    r
}

} // verus!
