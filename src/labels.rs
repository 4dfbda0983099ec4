use vstd::prelude::*;

verus! {

/// `x` itself when shorter than `maxlen` characters; otherwise its first and last
/// `(maxlen / 8) * 4` characters joined by three dots.
pub open spec fn abbreviated(x: Seq<char>, maxlen: nat) -> Seq<char> {
    if x.len() < maxlen {
        x
    } else {
        let k = (maxlen / 8) * 4;
        x.subrange(0, k as int) + seq!['.', '.', '.'] + x.subrange(x.len() - k, x.len() as int)
    }
}

/// Shortens a window title to fit a button of `maxlen` characters.
pub fn abbreviate(x: String, maxlen: usize) -> (r: String)
    ensures
        r@ == abbreviated(x@, maxlen as nat),
{
    let len = x.as_str().unicode_len();
    if len < maxlen {
        return x;
    }
    let k = (maxlen / 8) * 4;
    assert(k <= maxlen) by (nonlinear_arith)
        requires
            k == (maxlen / 8) * 4,
    ;
    let head = x.as_str().substring_char(0, k);
    let tail = x.as_str().substring_char(len - k, len);
    let dots = "...";
    proof {
        reveal_strlit("...");
    }
    assert(dots@ =~= seq!['.', '.', '.']);
    let mut r = String::from_str(head);
    r.append(dots);
    r.append(tail);
    r
}

/// `s` with every '.' turned into '_'.
pub open spec fn dots_to_underscores(s: Seq<char>) -> Seq<char> {
    s.map_values(|c: char| if c == '.' { '_' } else { c })
}

/// Relies on `str::replace`: every occurrence of the one-character pattern "." is
/// replaced by "_", and nothing else changes.
#[verifier::external_body]
fn replace_dots(s: &str) -> (r: String)
    ensures
        r@ == dots_to_underscores(s@),
{
    s.replace(".", "_")
}

/// The style class that buttons of windows of class `class` carry: "wbtn_"
/// followed by the class with its dots turned into underscores.
pub open spec fn class_style(class: Seq<char>) -> Seq<char> {
    seq!['w', 'b', 't', 'n', '_'] + dots_to_underscores(class)
}

/// The style class for the buttons of a window of class `class`.
pub fn style_class(class: &String) -> (r: String)
    ensures
        r@ == class_style(class@),
{
    let prefix = "wbtn_";
    proof {
        reveal_strlit("wbtn_");
    }
    assert(prefix@ =~= seq!['w', 'b', 't', 'n', '_']);
    let sanitized = replace_dots(class.as_str());
    let mut r = String::from_str(prefix);
    r.append(sanitized.as_str());
    r
}

/// The decimal digits of `n`, most significant first.
pub open spec fn decimal(n: nat) -> Seq<char>
    decreases n,
{
    if n < 10 {
        seq![digit_char(n)]
    } else {
        decimal(n / 10).push(digit_char(n % 10))
    }
}

pub open spec fn digit_char(d: nat) -> char {
    ((d + '0' as nat) as u8) as char
}

/// Writes `n` in decimal.
pub fn decimal_text(n: u64) -> (r: String)
    ensures
        r@ == decimal(n as nat),
    decreases n,
{
    let digits = "0123456789";
    proof {
        reveal_strlit("0123456789");
    }
    let d = (n % 10) as usize;
    let c = digits.substring_char(d, d + 1);
    assert(c@ =~= seq![digit_char(d as nat)]) by {
        assert(digits@[d as int] == digit_char(d as nat));
    }
    if n < 10 {
        String::from_str(c)
    } else {
        let mut r = decimal_text(n / 10);
        r.append(c);
        r
    }
}

/// The text of a window's button: its desktop counted from 1, a colon, and its
/// abbreviated title.
pub open spec fn button_text(desktop: u32, title: Seq<char>, maxlen: nat) -> Seq<char> {
    decimal(desktop as nat + 1) + seq![':', ' '] + abbreviated(title, maxlen)
}

/// The text of the button for a window on `desktop` with title `title`.
pub fn window_label(desktop: u32, title: &String, maxlen: usize) -> (r: String)
    ensures
        r@ == button_text(desktop, title@, maxlen as nat),
{
    let sep = ": ";
    proof {
        reveal_strlit(": ");
    }
    assert(sep@ =~= seq![':', ' ']);
    let short = abbreviate(title.clone(), maxlen);
    let mut r = decimal_text(desktop as u64 + 1);
    r.append(sep);
    r.append(short.as_str());
    r
}

} // verus!
