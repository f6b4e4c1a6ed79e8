//! Input event model: the identity of a physical key or mouse button and the
//! direction of one transition of it.

use vstd::prelude::*;

verus! {

/// The device a logical input lives on. Codes are only comparable within one
/// class: keyboard virtual-key 3 and mouse button 3 are distinct inputs.
#[derive(Debug, Clone, Copy, PartialEq, Eq, Structural)]
pub enum DeviceClass {
    Keyboard,
    Mouse,
}

/// Identity of one physical key or mouse button: a device class together with
/// the OS-level virtual code. A value type; equality is exactly equality of
/// the (class, code) pair.
#[derive(Debug, Clone, Copy, PartialEq, Eq, Structural)]
pub struct LogicalInput {
    pub class: DeviceClass,
    pub code: u16,
}

/// One direction of a physical event: the key went down or came up.
#[derive(Debug, Clone, Copy, PartialEq, Eq, Structural)]
pub enum InputTransition {
    Pressed,
    Released,
}

impl LogicalInput {
    /// Builds the input naming keyboard virtual-key `code`.
    pub fn keyboard(code: u16) -> (r: LogicalInput)
        ensures
            r.class == DeviceClass::Keyboard,
            r.code == code,
    {
        LogicalInput { class: DeviceClass::Keyboard, code }
    }

    /// Builds the input naming mouse button `code`.
    pub fn mouse(code: u16) -> (r: LogicalInput)
        ensures
            r.class == DeviceClass::Mouse,
            r.code == code,
    {
        LogicalInput { class: DeviceClass::Mouse, code }
    }

    /// The OS-level virtual code, as handed to the injection call.
    pub fn virtual_code(&self) -> (r: u16)
        ensures
            r == self.code,
    {
        self.code
    }
}

/// Two logical inputs are equal exactly when both the device class and the
/// code match; in particular two distinct codes of one class never compare
/// equal, and no keyboard input equals a mouse input.
pub proof fn lemma_logical_input_eq(a: LogicalInput, b: LogicalInput)
    ensures
        (a == b) <==> (a.class == b.class && a.code == b.code),
        a.class == b.class && a.code != b.code ==> a != b,
        a.class != b.class ==> a != b,
{
}

/// The decimal digit character for `d` (meaningful for `d < 10`).
pub open spec fn spec_digit_char(d: nat) -> char {
    if d == 0 {
        '0'
    } else if d == 1 {
        '1'
    } else if d == 2 {
        '2'
    } else if d == 3 {
        '3'
    } else if d == 4 {
        '4'
    } else if d == 5 {
        '5'
    } else if d == 6 {
        '6'
    } else if d == 7 {
        '7'
    } else if d == 8 {
        '8'
    } else {
        '9'
    }
}

/// The value of a decimal digit character; 10 marks a non-digit.
pub open spec fn spec_digit_val(c: char) -> nat {
    if c == '0' {
        0
    } else if c == '1' {
        1
    } else if c == '2' {
        2
    } else if c == '3' {
        3
    } else if c == '4' {
        4
    } else if c == '5' {
        5
    } else if c == '6' {
        6
    } else if c == '7' {
        7
    } else if c == '8' {
        8
    } else if c == '9' {
        9
    } else {
        10
    }
}

/// Whether `c` is a decimal digit character.
pub open spec fn spec_is_digit(c: char) -> bool {
    spec_digit_val(c) < 10
}

/// The canonical decimal spelling of `n`: most significant digit first, no
/// leading zero except for the one-character spelling of zero itself.
pub open spec fn spec_digits(n: nat) -> Seq<char>
    decreases n,
{
    if n < 10 {
        seq![spec_digit_char(n)]
    } else {
        spec_digits(n / 10).push(spec_digit_char(n % 10))
    }
}

/// The number a character sequence spells in decimal (non-digit characters
/// count as 10, which no canonical spelling contains).
pub open spec fn spec_digits_val(s: Seq<char>) -> nat
    decreases s.len(),
{
    if s.len() == 0 {
        0
    } else {
        spec_digits_val(s.drop_last()) * 10 + spec_digit_val(s.last())
    }
}

/// A canonical decimal spelling: nonempty, digits only, and no leading zero
/// unless it is the single character `0`.
pub open spec fn spec_canonical_digits(s: Seq<char>) -> bool {
    &&& s.len() >= 1
    &&& forall|i: int| 0 <= i < s.len() ==> spec_is_digit(#[trigger] s[i])
    &&& s.len() > 1 ==> s[0] != '0'
}

/// The canonical spelling of any number is canonical and spells that number
/// back: reading the label of a code recovers the code.
pub proof fn lemma_digits_roundtrip(n: nat)
    ensures
        spec_canonical_digits(spec_digits(n)),
        spec_digits_val(spec_digits(n)) == n,
        n >= 1 ==> spec_digits(n)[0] != '0',
    decreases n,
{
    if n < 10 {
        let s = spec_digits(n);
        assert(s.drop_last() =~= Seq::<char>::empty());
        assert(spec_digits_val(Seq::<char>::empty()) == 0);
        assert(s.last() == spec_digit_char(n));
        assert(spec_digits_val(s) == spec_digits_val(s.drop_last()) * 10 + spec_digit_val(s.last()));
    } else {
        lemma_digits_roundtrip(n / 10);
        let p = spec_digits(n / 10);
        let s = spec_digits(n);
        assert(s.drop_last() =~= p);
        assert(s.last() == spec_digit_char((n % 10) as nat));
        assert(spec_digits_val(s) == spec_digits_val(p) * 10 + spec_digit_val(
            spec_digit_char((n % 10) as nat),
        ));
        vstd::arithmetic::div_mod::lemma_fundamental_div_mod(n as int, 10);
        assert(s[0] == p[0]);
    }
}

/// A nonempty digit string that does not start with `0` spells a positive
/// number.
proof fn lemma_digits_val_pos(s: Seq<char>)
    requires
        s.len() >= 1,
        forall|i: int| 0 <= i < s.len() ==> spec_is_digit(#[trigger] s[i]),
        s[0] != '0',
    ensures
        spec_digits_val(s) >= 1,
    decreases s.len(),
{
    if s.len() == 1 {
        assert(spec_digits_val(s) == spec_digits_val(s.drop_last()) * 10 + spec_digit_val(s.last()));
        assert(s.drop_last().len() == 0);
        assert(s.last() == s[0]);
    } else {
        let p = s.drop_last();
        assert(p[0] == s[0]);
        assert(forall|i: int| 0 <= i < p.len() ==> spec_is_digit(#[trigger] p[i]));
        lemma_digits_val_pos(p);
    }
}

/// A canonical spelling is the spelling of its own value: no two distinct
/// canonical digit strings spell the same number.
pub proof fn lemma_canonical_digits_exact(s: Seq<char>)
    requires
        spec_canonical_digits(s),
    ensures
        spec_digits(spec_digits_val(s)) == s,
    decreases s.len(),
{
    if s.len() == 1 {
        assert(s.drop_last() =~= Seq::<char>::empty());
        assert(spec_digits_val(Seq::<char>::empty()) == 0);
        assert(s.last() == s[0]);
        assert(spec_digits_val(s) == spec_digits_val(s.drop_last()) * 10 + spec_digit_val(s.last()));
        assert(spec_digits(spec_digits_val(s)) =~= s);
    } else {
        let p = s.drop_last();
        assert(p[0] == s[0]);
        assert(forall|i: int| 0 <= i < p.len() ==> spec_is_digit(#[trigger] p[i]));
        lemma_canonical_digits_exact(p);
        lemma_digits_val_pos(p);
        let m = spec_digits_val(p);
        let d = spec_digit_val(s.last());
        let n = spec_digits_val(s);
        assert(n == m * 10 + d);
        assert(n >= 10);
        vstd::arithmetic::div_mod::lemma_fundamental_div_mod_converse(
            n as int,
            10,
            m as int,
            d as int,
        );
        assert(spec_digits(n) == spec_digits(m).push(spec_digit_char(d)));
        assert(spec_digit_char(spec_digit_val(s.last())) == s.last());
        assert(spec_digits(n) =~= s);
    }
}

/// Growing a spelled prefix never shrinks its value: the value of the whole
/// is at least the value of any front part.
proof fn lemma_digits_val_prefix_le(s: Seq<char>, m: int)
    requires
        0 <= m <= s.len(),
    ensures
        spec_digits_val(s.subrange(0, m)) <= spec_digits_val(s),
    decreases s.len() - m,
{
    if m == s.len() {
        assert(s.subrange(0, m) =~= s);
    } else {
        lemma_digits_val_prefix_le(s, m + 1);
        let q = s.subrange(0, m + 1);
        assert(q.drop_last() =~= s.subrange(0, m));
        assert(spec_digits_val(q) == spec_digits_val(s.subrange(0, m)) * 10 + spec_digit_val(
            q.last(),
        ));
    }
}

/// The human-readable class tag a label starts with.
pub open spec fn spec_class_tag(class: DeviceClass) -> Seq<char> {
    match class {
        DeviceClass::Keyboard => seq!['k', 'e', 'y'],
        DeviceClass::Mouse => seq!['m', 'o', 'u', 's', 'e'],
    }
}

/// The human-readable label of a logical input: its class tag, a colon, and
/// the decimal virtual code.
pub open spec fn spec_label(k: LogicalInput) -> Seq<char> {
    spec_class_tag(k.class) + seq![':'] + spec_digits(k.code as nat)
}

/// Distinct logical inputs have distinct labels: a label names exactly one
/// input, so labels are a faithful display form.
pub proof fn lemma_label_injective(a: LogicalInput, b: LogicalInput)
    requires
        spec_label(a) == spec_label(b),
    ensures
        a == b,
{
    lemma_digits_roundtrip(a.code as nat);
    lemma_digits_roundtrip(b.code as nat);
    if a.class != b.class {
        assert(spec_class_tag(DeviceClass::Keyboard)[0] == 'k');
        assert(spec_class_tag(DeviceClass::Mouse)[0] == 'm');
        assert(spec_label(a)[0] == spec_class_tag(a.class)[0]);
        assert(spec_label(b)[0] == spec_class_tag(b.class)[0]);
        assert(spec_label(a)[0] != spec_label(b)[0]);
    } else {
        let off = spec_class_tag(a.class).len() as int + 1;
        assert(spec_label(a).subrange(off, spec_label(a).len() as int) =~= spec_digits(
            a.code as nat,
        ));
        assert(spec_label(b).subrange(off, spec_label(b).len() as int) =~= spec_digits(
            b.code as nat,
        ));
        assert(spec_digits_val(spec_digits(a.code as nat)) == spec_digits_val(
            spec_digits(b.code as nat),
        ));
    }
}

/// The digit character for `d`.
fn digit_char(d: u16) -> (c: char)
    requires
        d < 10,
    ensures
        c == spec_digit_char(d as nat),
{
    if d == 0 {
        '0'
    } else if d == 1 {
        '1'
    } else if d == 2 {
        '2'
    } else if d == 3 {
        '3'
    } else if d == 4 {
        '4'
    } else if d == 5 {
        '5'
    } else if d == 6 {
        '6'
    } else if d == 7 {
        '7'
    } else if d == 8 {
        '8'
    } else {
        '9'
    }
}

/// The value of a digit character; 10 marks a non-digit.
fn digit_val(c: char) -> (d: u16)
    ensures
        d == spec_digit_val(c),
{
    if c == '0' {
        0
    } else if c == '1' {
        1
    } else if c == '2' {
        2
    } else if c == '3' {
        3
    } else if c == '4' {
        4
    } else if c == '5' {
        5
    } else if c == '6' {
        6
    } else if c == '7' {
        7
    } else if c == '8' {
        8
    } else if c == '9' {
        9
    } else {
        10
    }
}

/// Spells `n` in canonical decimal.
fn u16_digits(n: u16) -> (r: Vec<char>)
    ensures
        r@ == spec_digits(n as nat),
    decreases n,
{
    if n < 10 {
        let mut r: Vec<char> = Vec::new();
        r.push(digit_char(n));
        proof {
            assert(r@ =~= spec_digits(n as nat));
        }
        r
    } else {
        let mut r = u16_digits(n / 10);
        r.push(digit_char(n % 10));
        r
    }
}

/// Reads a decimal virtual code from `s` at and after `off`: the whole tail
/// must be a canonical spelling of a value a code can hold, else nothing.
fn parse_code(s: &Vec<char>, off: usize) -> (r: Option<u16>)
    requires
        off <= s@.len(),
    ensures
        ({
            let digits = s@.subrange(off as int, s@.len() as int);
            &&& (spec_canonical_digits(digits) && spec_digits_val(digits) <= u16::MAX) ==> r
                == Some((spec_digits_val(digits) as u16))
            &&& !(spec_canonical_digits(digits) && spec_digits_val(digits) <= u16::MAX) ==> r
                is None
        }),
{
    let ghost digits = s@.subrange(off as int, s@.len() as int);
    let n = s.len();
    if off >= n {
        return None;
    }
    if s[off] == '0' && n - off > 1 {
        assert(digits[0] == '0' && digits.len() > 1);
        return None;
    }
    let mut acc: u32 = 0;
    let mut i: usize = off;
    while i < n
        invariant
            off <= i <= n,
            n == s@.len(),
            digits == s@.subrange(off as int, s@.len() as int),
            forall|j: int| 0 <= j < i - off ==> spec_is_digit(#[trigger] digits[j]),
            acc == spec_digits_val(digits.subrange(0, i - off)),
            acc <= u16::MAX,
        decreases n - i,
    {
        let d = digit_val(s[i]);
        proof {
            assert(digits[i - off] == s@[i as int]);
        }
        if d >= 10 {
            return None;
        }
        let next: u32 = acc * 10 + d as u32;
        proof {
            let q = digits.subrange(0, i - off + 1);
            assert(q.drop_last() =~= digits.subrange(0, i - off));
            assert(q.last() == digits[i - off]);
            assert(next == spec_digits_val(q));
        }
        if next > u16::MAX as u32 {
            proof {
                lemma_digits_val_prefix_le(digits, i - off + 1);
            }
            return None;
        }
        acc = next;
        i = i + 1;
    }
    proof {
        assert(digits.subrange(0, i - off) =~= digits);
    }
    Some(acc as u16)
}

impl LogicalInput {
    /// The input's human-readable label: its class tag, a colon, and the
    /// decimal virtual code, as display characters.
    pub fn label(&self) -> (r: Vec<char>)
        ensures
            r@ == spec_label(*self),
    {
        let mut r: Vec<char> = Vec::new();
        match self.class {
            DeviceClass::Keyboard => {
                r.push('k');
                r.push('e');
                r.push('y');
            },
            DeviceClass::Mouse => {
                r.push('m');
                r.push('o');
                r.push('u');
                r.push('s');
                r.push('e');
            },
        }
        r.push(':');
        let mut digits = u16_digits(self.code);
        r.append(&mut digits);
        proof {
            assert(r@ =~= spec_label(*self));
        }
        r
    }

    /// Reads a label back: exactly the labels this module writes are
    /// accepted, and each one yields the one input it labels — so labels
    /// round-trip, and nothing that is not a label is ever taken for one.
    pub fn parse_label(s: &Vec<char>) -> (r: Option<LogicalInput>)
        ensures
            r matches Some(k) ==> s@ == spec_label(k),
            forall|k: LogicalInput| s@ == spec_label(k) ==> r == Some(k),
    {
        let n = s.len();
        let class: DeviceClass;
        let off: usize;
        if n >= 4 && s[0] == 'k' && s[1] == 'e' && s[2] == 'y' && s[3] == ':' {
            class = DeviceClass::Keyboard;
            off = 4;
        } else if n >= 6 && s[0] == 'm' && s[1] == 'o' && s[2] == 'u' && s[3] == 's' && s[4] == 'e'
            && s[5] == ':' {
            class = DeviceClass::Mouse;
            off = 6;
        } else {
            proof {
                assert forall|k: LogicalInput| s@ != spec_label(k) by {
                    if s@ == spec_label(k) {
                        lemma_digits_roundtrip(k.code as nat);
                    }
                }
            }
            return None;
        }
        proof {
            assert(off == spec_class_tag(class).len() + 1);
        }
        match parse_code(s, off) {
            Some(code) => {
                let k = LogicalInput { class, code };
                proof {
                    let digits = s@.subrange(off as int, s@.len() as int);
                    lemma_canonical_digits_exact(digits);
                    assert(s@ =~= spec_label(k));
                    assert forall|k2: LogicalInput| s@ == spec_label(k2) implies Some(k) == Some(
                        k2,
                    ) by {
                        lemma_label_injective(k, k2);
                    }
                }
                Some(k)
            },
            None => {
                proof {
                    assert forall|k2: LogicalInput| s@ != spec_label(k2) by {
                        if s@ == spec_label(k2) {
                            lemma_digits_roundtrip(k2.code as nat);
                            if k2.class == class {
                                assert(s@.subrange(off as int, s@.len() as int) =~= spec_digits(
                                    k2.code as nat,
                                ));
                            } else {
                                assert(s@[0] != spec_label(k2)[0]);
                            }
                        }
                    }
                }
                None
            },
        }
    }
}

} // verus!
