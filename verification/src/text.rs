//! Numbers and words as text.
use vstd::prelude::*;

verus! {

/// The character of a digit.
pub open spec fn digit(d: int) -> char {
    if d == 0 {
        '0'
    } else if d == 1 {
        '1'
    } else if d == 2 {
        '2'
    } else if d == 3 {
        '3'
    } else if d == 4 {
        '4'
    } else if d == 5 {
        '5'
    } else if d == 6 {
        '6'
    } else if d == 7 {
        '7'
    } else if d == 8 {
        '8'
    } else {
        '9'
    }
}

/// A number in decimal, without leading zeros.
pub open spec fn decimal(n: nat) -> Seq<char>
    decreases n,
{
    if n < 10 {
        seq![digit(n as int)]
    } else {
        decimal(n / 10).push(digit((n % 10) as int))
    }
}

/// A number in decimal, in at least two digits.
pub open spec fn two_digits(n: nat) -> Seq<char> {
    if n < 10 {
        seq!['0', digit(n as int)]
    } else {
        decimal(n)
    }
}

/// The number that a digit stands for.
pub open spec fn digit_value(c: char) -> int {
    c as int - '0' as int
}

/// The number that a sequence of digits stands for.
pub open spec fn value(digits: Seq<char>) -> int
    decreases digits.len(),
{
    if digits.len() == 0 {
        0
    } else {
        10 * value(digits.drop_last()) + digit_value(digits.last())
    }
}

/// The text of a digit.
fn digit_text(d: u64) -> (r: &'static str)
    requires
        d < 10,
    ensures
        r@ == seq![digit(d as int)],
{
    proof {
        reveal_strlit("0");
        reveal_strlit("1");
        reveal_strlit("2");
        reveal_strlit("3");
        reveal_strlit("4");
        reveal_strlit("5");
        reveal_strlit("6");
        reveal_strlit("7");
        reveal_strlit("8");
        reveal_strlit("9");
    }
    let r: &'static str = if d == 0 {
        "0"
    } else if d == 1 {
        "1"
    } else if d == 2 {
        "2"
    } else if d == 3 {
        "3"
    } else if d == 4 {
        "4"
    } else if d == 5 {
        "5"
    } else if d == 6 {
        "6"
    } else if d == 7 {
        "7"
    } else if d == 8 {
        "8"
    } else {
        "9"
    };
    assert(r@ =~= seq![digit(d as int)]);
    r
}

/// A number in decimal.
pub fn decimal_text(n: u64) -> (r: String)
    ensures
        r@ == decimal(n as nat),
    decreases n,
{
    if n < 10 {
        String::from_str(digit_text(n))
    } else {
        let mut text = decimal_text(n / 10);
        text.append(digit_text(n % 10));
        assert(text@ =~= decimal(n as nat));
        text
    }
}

/// A number in decimal, in at least two digits.
pub fn two_digit_text(n: u64) -> (r: String)
    ensures
        r@ == two_digits(n as nat),
{
    if n < 10 {
        let mut text = String::from_str(digit_text(0));
        text.append(digit_text(n));
        assert(text@ =~= two_digits(n as nat));
        text
    } else {
        decimal_text(n)
    }
}

/// The decimal text of a number stands for that number.
pub proof fn law_decimal_has_value(n: nat)
    ensures
        value(decimal(n)) == n,
    decreases n,
{
    if n >= 10 {
        law_decimal_has_value(n / 10);
        let text = decimal(n);
        assert(text.drop_last() =~= decimal(n / 10));
        assert(text.last() == digit((n % 10) as int));
    } else {
        let text = decimal(n);
        assert(text.drop_last() =~= Seq::empty());
        assert(text.last() == digit(n as int));
        assert(value(text.drop_last()) == 0);
    }
}

/// Different numbers have different decimal texts.
pub proof fn law_decimal_is_injective(a: nat, b: nat)
    requires
        decimal(a) == decimal(b),
    ensures
        a == b,
{
    law_decimal_has_value(a);
    law_decimal_has_value(b);
}

/// The first letters of the words of a text that spaces separate.
pub open spec fn initials(text: Seq<char>) -> Seq<char>
    decreases text.len(),
{
    if text.len() == 0 {
        Seq::empty()
    } else {
        let rest = initials(text.drop_last());
        if text.last() != ' ' && (text.len() == 1 || text[text.len() - 2] == ' ') {
            rest.push(text.last())
        } else {
            rest
        }
    }
}

/// The first letters of the words of a name.
pub fn initials_of(name: &str) -> (r: String)
    ensures
        r@ == initials(name@),
{
    let mut letters = String::new();
    let n: usize = name.unicode_len();
    let mut i: usize = 0;
    while i < n
        invariant
            n == name@.len(),
            i <= n,
            letters@ == initials(name@.take(i as int)),
        decreases n - i,
    {
        let ghost front = name@.take(i + 1);
        assert(front.drop_last() =~= name@.take(i as int));
        assert(front.last() == name@[i as int]);
        assert(i > 0 ==> front[front.len() - 2] == name@[i - 1]);
        if name.get_char(i) != ' ' && (i == 0 || name.get_char(i - 1) == ' ') {
            letters.append(name.substring_char(i, i + 1));
            assert(letters@ =~= initials(front));
        }
        i += 1;
    }
    assert(name@.take(i as int) =~= name@);
    letters
}

/// Words without spaces around them have one initial each.
pub proof fn law_initials_of_two_words(first: Seq<char>, second: Seq<char>)
    requires
        first.len() > 0,
        second.len() > 0,
        forall|i: int| 0 <= i < first.len() ==> #[trigger] first[i] != ' ',
        forall|i: int| 0 <= i < second.len() ==> #[trigger] second[i] != ' ',
    ensures
        initials(first) == seq![first[0]],
        initials(first + seq![' '] + second) == seq![first[0], second[0]],
    decreases first.len() + second.len(),
{
    let text = first + seq![' '] + second;
    if first.len() == 1 && second.len() == 1 {
        assert(text.drop_last() =~= first + seq![' ']);
        assert((first + seq![' ']).drop_last() =~= first);
        assert(first.drop_last() =~= Seq::empty());
        assert(initials(first.drop_last()) =~= Seq::<char>::empty());
        assert(initials(first) =~= seq![first[0]]);
        assert((first + seq![' ']).last() == ' ');
        assert(initials(first + seq![' ']) == initials(first));
        assert(text[text.len() - 2] == ' ');
        assert(initials(text) =~= seq![first[0], second[0]]);
    } else if second.len() > 1 {
        let shorter = second.drop_last();
        assert forall|i: int| 0 <= i < shorter.len() implies #[trigger] shorter[i] != ' ' by {
            assert(shorter[i] == second[i]);
        }
        law_initials_of_two_words(first, shorter);
        assert(text.drop_last() =~= first + seq![' '] + shorter);
        assert(text[text.len() - 2] == second[second.len() - 2]);
        assert(initials(text) == initials(text.drop_last()));
    } else {
        let shorter = first.drop_last();
        assert forall|i: int| 0 <= i < shorter.len() implies #[trigger] shorter[i] != ' ' by {
            assert(shorter[i] == first[i]);
        }
        law_initials_of_two_words(shorter, second);
        assert(first[first.len() - 2] != ' ');
        assert(initials(first) == initials(shorter));
        assert(text.drop_last() =~= first + seq![' ']);
        assert((first + seq![' ']).drop_last() =~= first);
        assert((first + seq![' ']).last() == ' ');
        assert(initials(first + seq![' ']) == initials(first));
        assert(text[text.len() - 2] == ' ');
        assert(initials(text) =~= seq![first[0], second[0]]);
    }
}

/// The text is made of digits, one at least.
pub open spec fn is_digits(text: Seq<char>) -> bool {
    &&& text.len() > 0
    &&& forall|i: int| 0 <= i < text.len() ==> '0' <= #[trigger] text[i] <= '9'
}

/// A text without the sign that may stand before a number.
pub open spec fn unsigned(text: Seq<char>) -> Seq<char> {
    if text.len() > 0 && text[0] == '+' {
        text.skip(1)
    } else {
        text
    }
}

/// The count that a text stands for, if it stands for one that 64 bits can hold.
pub open spec fn count(text: Seq<char>) -> Option<u64> {
    let digits = unsigned(text);
    if is_digits(digits) && value(digits) <= u64::MAX {
        Some(value(digits) as u64)
    } else {
        None
    }
}

/// More digits never make a number smaller.
proof fn lemma_value_grows(digits: Seq<char>, n: int)
    requires
        is_digits(digits),
        0 <= n <= digits.len(),
    ensures
        0 <= value(digits.take(n)) <= value(digits),
    decreases digits.len(),
{
    if n == digits.len() {
        assert(digits.take(n) =~= digits);
        if n > 1 {
            let front = digits.drop_last();
            assert forall|i: int| 0 <= i < front.len() implies '0' <= #[trigger] front[i] <= '9' by {
                assert(front[i] == digits[i]);
            }
            lemma_value_grows(front, n - 1);
            assert(front.take(n - 1) =~= front);
        } else {
            assert(value(digits.drop_last()) == 0);
        }
    } else {
        let front = digits.drop_last();
        assert(digits.take(n) =~= front.take(n));
        if front.len() > 0 {
            assert forall|i: int| 0 <= i < front.len() implies '0' <= #[trigger] front[i] <= '9' by {
                assert(front[i] == digits[i]);
            }
            lemma_value_grows(front, n);
        } else {
            assert(value(digits.take(n)) == 0);
            assert(value(front) == 0);
        }
    }
}

/// Reads a count.
pub fn parse_count(text: &str) -> (r: Option<u64>)
    ensures
        r == count(text@),
{
    let n: usize = text.unicode_len();
    let start: usize = if n > 0 && text.get_char(0) == '+' {
        1
    } else {
        0
    };
    let ghost digits = unsigned(text@);
    assert(digits =~= text@.skip(start as int));
    if start == n {
        return None;
    }
    let mut total: u64 = 0;
    let mut i: usize = start;
    while i < n
        invariant
            start <= i <= n,
            n == text@.len(),
            start < n,
            digits == text@.skip(start as int),
            digits == unsigned(text@),
            forall|j: int| 0 <= j < i - start ==> '0' <= #[trigger] digits[j] <= '9',
            total == value(digits.take(i - start)),
        decreases n - i,
    {
        let c: char = text.get_char(i);
        assert(digits[i - start] == c);
        if c < '0' || c > '9' {
            return None;
        }
        let d: u64 = c as u64 - '0' as u64;
        proof {
            let front = digits.take(i - start + 1);
            assert(front.drop_last() =~= digits.take(i - start));
            assert(front.last() == c);
            assert(value(front) == 10 * total + d);
            if is_digits(digits) {
                lemma_value_grows(digits, i - start + 1);
            }
        }
        if total > (u64::MAX - d) / 10 {
            return None;
        }
        total = 10 * total + d;
        i += 1;
    }
    assert(digits.take(i - start) =~= digits);
    Some(total)
}

/// The decimal text of a number is digits.
pub proof fn lemma_decimal_is_digits(n: nat)
    ensures
        is_digits(decimal(n)),
    decreases n,
{
    if n >= 10 {
        lemma_decimal_is_digits(n / 10);
        assert(decimal(n).drop_last() =~= decimal(n / 10));
    }
}

/// A count is read back from its decimal text.
pub proof fn law_count_reads_back(n: u64)
    ensures
        count(decimal(n as nat)) == Some(n),
{
    law_decimal_has_value(n as nat);
    lemma_decimal_is_digits(n as nat);
    assert(decimal(n as nat)[0] != '+');
}

/// Whether two texts are the same.
pub fn same_text(a: &str, b: &str) -> (r: bool)
    ensures
        r == (a@ == b@),
{
    let n: usize = a.unicode_len();
    if n != b.unicode_len() {
        return false;
    }
    let mut i: usize = 0;
    while i < n
        invariant
            i <= n,
            n == a@.len(),
            n == b@.len(),
            a@.take(i as int) == b@.take(i as int),
        decreases n - i,
    {
        if a.get_char(i) != b.get_char(i) {
            return false;
        }
        assert(a@.take(i + 1) =~= a@.take(i as int).push(a@[i as int]));
        assert(b@.take(i + 1) =~= b@.take(i as int).push(b@[i as int]));
        i += 1;
    }
    assert(a@.take(i as int) =~= a@);
    assert(b@.take(i as int) =~= b@);
    true
}

/// The text of a number is made of the digits that add up to it and starts with no zero, unless the
/// number is zero. In two digits it is the same, with a zero before a single digit.
pub proof fn law_number_texts(n: u64, plain: String, padded: String)
    requires
        call_ensures(decimal_text, (n,), plain),
        call_ensures(two_digit_text, (n,), padded),
    ensures
        is_digits(plain@),
        value(plain@) == n,
        plain@[0] == '0' <==> n == 0,
        plain@.len() == 1 <==> n < 10,
        n >= 10 ==> padded@ == plain@,
        n < 10 ==> padded@ == seq!['0'] + plain@,
        value(padded@) == n,
        padded@.len() == 2 <==> n < 100,
{
    law_decimal_has_value(n as nat);
    lemma_decimal_is_digits(n as nat);
    lemma_decimal_starts(n as nat);
    if n < 10 {
        let text = padded@;
        assert(text =~= seq!['0'] + plain@);
        assert(text.drop_last() =~= seq!['0']);
        assert(seq!['0'].drop_last() =~= Seq::<char>::empty());
        assert(value(seq!['0'].drop_last()) == 0);
        assert(value(seq!['0']) == 0);
    } else if n < 100 {
        assert(decimal((n / 10) as nat).len() == 1);
    } else {
        assert(decimal((n / 100) as nat).len() >= 1) by {
            lemma_decimal_is_digits((n / 100) as nat);
        }
        assert(decimal((n / 10) as nat) == decimal(((n / 10) / 10) as nat).push(
            digit(((n / 10) % 10) as int),
        ));
        assert((n / 10) / 10 == n / 100);
    }
}

/// How the text of a number starts.
proof fn lemma_decimal_starts(n: nat)
    ensures
        decimal(n).len() > 0,
        decimal(n)[0] == '0' <==> n == 0,
        decimal(n).len() == 1 <==> n < 10,
    decreases n,
{
    if n >= 10 {
        lemma_decimal_starts(n / 10);
    }
}

/// A number below a hundred takes two digits that stand for it.
pub proof fn law_two_digits(n: nat)
    requires
        n < 100,
    ensures
        two_digits(n).len() == 2,
        value(two_digits(n)) == n,
        is_digits(two_digits(n)),
{
    law_decimal_has_value(n);
    lemma_decimal_is_digits(n);
    if n < 10 {
        assert(two_digits(n) =~= seq!['0'] + decimal(n));
        lemma_leading_zero(decimal(n));
    } else {
        assert(decimal(n / 10).len() == 1);
    }
}

/// The initials of a text are those of what stands before a space, and then those of what stands
/// behind it; and a word without spaces has its first letter for an initial.
pub proof fn law_initials_go_word_by_word(before: Seq<char>, behind: Seq<char>)
    ensures
        initials(before + seq![' '] + behind) == initials(before) + initials(behind),
        behind.len() > 0 && !behind.contains(' ') ==> initials(behind) == seq![behind[0]],
        initials(Seq::empty()) == Seq::<char>::empty(),
    decreases behind.len(),
{
    let text = before + seq![' '] + behind;
    if behind.len() == 0 {
        assert(text.drop_last() =~= before);
        assert(text.last() == ' ');
        assert(initials(behind) =~= Seq::<char>::empty());
        assert(initials(text) =~= initials(before) + initials(behind));
    } else {
        let shorter = behind.drop_last();
        law_initials_go_word_by_word(before, shorter);
        assert(text.drop_last() =~= before + seq![' '] + shorter);
        assert(text.last() == behind.last());
        if behind.len() == 1 {
            assert(text[text.len() - 2] == ' ');
            assert(initials(shorter) =~= Seq::<char>::empty());
        } else {
            assert(text[text.len() - 2] == behind[behind.len() - 2]);
        }
        assert(initials(text) =~= initials(before) + initials(behind));
        if !behind.contains(' ') {
            assert(behind[behind.len() - 1] != ' ');
            if behind.len() > 1 {
                assert(behind[behind.len() - 2] != ' ');
                assert(!shorter.contains(' ')) by {
                    if shorter.contains(' ') {
                        let k = shorter.index_of(' ');
                        assert(behind[k] == ' ');
                    }
                }
            }
            assert(initials(behind) =~= seq![behind[0]]);
        }
    }
}

/// The initials of a name are read off the name.
pub proof fn law_initials_are_of_name(first: Seq<char>, last: Seq<char>, name: &str, r: String)
    requires
        call_ensures(initials_of, (name,), r),
        name@ == first + seq![' '] + last,
        first.len() > 0 && !first.contains(' '),
        last.len() > 0 && !last.contains(' '),
    ensures
        r@ == seq![first[0], last[0]],
{
    law_initials_go_word_by_word(first, last);
    law_initials_go_word_by_word(Seq::empty(), first);
    assert(seq![first[0]] + seq![last[0]] =~= seq![first[0], last[0]]);
}

/// A zero in front of digits counts for nothing.
proof fn lemma_leading_zero(digits: Seq<char>)
    ensures
        value(seq!['0'] + digits) == value(digits),
    decreases digits.len(),
{
    let text = seq!['0'] + digits;
    if digits.len() == 0 {
        assert(text.drop_last() =~= Seq::<char>::empty());
        assert(value(text.drop_last()) == 0);
    } else {
        lemma_leading_zero(digits.drop_last());
        assert(text.drop_last() =~= seq!['0'] + digits.drop_last());
    }
}

/// A count is read from digits and nothing else, but for one plus sign that may stand before them;
/// the sign and zeros in front make no difference, and the digits of a number are read as that
/// number.
pub proof fn law_counts_are_read_from_digits(
    text: &str,
    r: Option<u64>,
    i: int,
    digits: Seq<char>,
    n: u64,
)
    requires
        call_ensures(parse_count, (text,), r),
    ensures
        text@.len() == 0 ==> r is None,
        text@ == seq!['+'] ==> r is None,
        0 <= i < text@.len() && !('0' <= text@[i] <= '9') && !(i == 0 && text@[0] == '+') ==> r is None,
        text@ == decimal(n as nat) ==> r == Some(n),
        text@ == seq!['+'] + decimal(n as nat) ==> r == Some(n),
        is_digits(digits) && text@ == seq!['0'] + digits ==> r == count(digits),
        is_digits(text@) && value(text@) > u64::MAX ==> r is None,
{
    law_count_reads_back(n);
    lemma_decimal_is_digits(n as nat);
    if text@ == seq!['+'] + decimal(n as nat) {
        assert(unsigned(text@) =~= decimal(n as nat));
        law_decimal_has_value(n as nat);
    }
    if is_digits(digits) && text@ == seq!['0'] + digits {
        lemma_leading_zero(digits);
        assert(unsigned(text@) =~= text@);
        assert(digits[0] != '+');
        assert forall|k: int| 0 <= k < text@.len() implies '0' <= #[trigger] text@[k] <= '9' by {
            if k > 0 {
                assert(text@[k] == digits[k - 1]);
            }
        }
    }
    if text@ == seq!['+'] {
        assert(unsigned(text@).len() == 0);
    }
    if 0 <= i < text@.len() && !('0' <= text@[i] <= '9') && !(i == 0 && text@[0] == '+') {
        if text@[0] == '+' {
            assert(unsigned(text@)[i - 1] == text@[i]);
        } else {
            assert(unsigned(text@)[i] == text@[i]);
        }
    }
    if is_digits(text@) {
        assert(text@[0] != '+');
    }
}

/// Two texts are the same if they are as long and agree at every place, and else they are not.
pub proof fn law_same_text_compares_all(a: &str, b: &str, r: bool, i: int)
    requires
        call_ensures(same_text, (a, b), r),
    ensures
        r ==> a@.len() == b@.len(),
        r && 0 <= i < a@.len() ==> a@[i] == b@[i],
        a@.len() == b@.len() && (forall|k: int| 0 <= k < a@.len() ==> #[trigger] a@[k] == b@[k]) ==> r,
{
    if a@.len() == b@.len() && (forall|k: int| 0 <= k < a@.len() ==> #[trigger] a@[k] == b@[k]) {
        assert(a@ =~= b@);
    }
}

} // verus!
