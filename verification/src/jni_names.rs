//! Names of JNI entry points: `Java_<package>_<Class>_<method>`, where the package's
//! dots become underscores and the Rust function's snake_case name becomes
//! camelCase.

use crate::text::{opt_text, push_char};
use vstd::prelude::*;
use vstd::string::*;

verus! {

broadcast use vstd::string::axiom_spec_iter;

/// What `char::to_uppercase` yields for `c`: its uppercase mapping, one or more
/// characters.
pub uninterp spec fn char_uppercase(c: char) -> Seq<char>;

/// Calls `char::to_uppercase` and collects what it yields. The result is named
/// `char_uppercase(c)`; for an ASCII character it is the ASCII uppercase letter,
/// or the character itself where it is not a lowercase letter. The mapping is the
/// one of the Unicode Character Database (`UnicodeData.txt`, `SpecialCasing.txt`),
/// where no character other than `_` itself maps to text holding `_`.
#[verifier::external_body]
fn uppercase(c: char) -> (s: String)
    ensures
        s@ == char_uppercase(c),
        'a' <= c <= 'z' ==> s@ == seq![((c as u32) - 32) as char],
        (c as u32) < 128 && !('a' <= c <= 'z') ==> s@ == seq![c],
        c != '_' ==> !s@.contains('_'),
{
    c.to_uppercase().collect()
}

/// One step of the conversion: the text so far and whether the next character is
/// to be capitalised.
pub open spec fn camel_step(acc: (Seq<char>, bool), ch: char) -> (Seq<char>, bool) {
    if ch == '_' {
        (acc.0, true)
    } else if acc.1 {
        (acc.0 + char_uppercase(ch), false)
    } else {
        (acc.0.push(ch), false)
    }
}

/// The conversion of `s`, character by character.
pub open spec fn camel_fold(s: Seq<char>) -> (Seq<char>, bool)
    decreases s.len(),
{
    if s.len() == 0 {
        (Seq::empty(), false)
    } else {
        camel_step(camel_fold(s.drop_last()), s.last())
    }
}

/// The ASCII uppercase of `c`: lowercase letters become uppercase, every other
/// character stays.
pub open spec fn ascii_upper(c: char) -> char {
    if 'a' <= c <= 'z' {
        ((c as u32) - 32) as char
    } else {
        c
    }
}

/// Every character of `s` is ASCII.
pub open spec fn all_ascii(s: Seq<char>) -> bool {
    forall|i: int| 0 <= i < s.len() ==> (s[i] as u32) < 128
}

/// One step of the conversion of an ASCII name.
pub open spec fn ascii_camel_step(acc: (Seq<char>, bool), ch: char) -> (Seq<char>, bool) {
    if ch == '_' {
        (acc.0, true)
    } else if acc.1 {
        (acc.0.push(ascii_upper(ch)), false)
    } else {
        (acc.0.push(ch), false)
    }
}

/// The conversion of an ASCII name, character by character.
pub open spec fn ascii_camel_fold(s: Seq<char>) -> (Seq<char>, bool)
    decreases s.len(),
{
    if s.len() == 0 {
        (Seq::empty(), false)
    } else {
        ascii_camel_step(ascii_camel_fold(s.drop_last()), s.last())
    }
}

/// An ASCII name in camelCase: underscores are dropped and the letter after an
/// underscore is upper-cased (`get_battery_level` becomes `getBatteryLevel`).
pub open spec fn ascii_camel_case(s: Seq<char>) -> Seq<char> {
    ascii_camel_fold(s).0
}

/// `s` in camelCase: underscores are dropped and the character after an underscore
/// is upper-cased.
pub open spec fn camel_case(s: Seq<char>) -> Seq<char> {
    camel_fold(s).0
}

/// Converts snake_case to camelCase.
pub fn snake_to_camel(s: &str) -> (r: String)
    ensures
        r@ == camel_case(s@),
        all_ascii(s@) ==> r@ == ascii_camel_case(s@),
        forall|j: int| 0 <= j < r@.len() ==> r@[j] != '_',
{
    let mut result = String::new();
    let mut next_upper = false;
    for ch in it: s.chars()
        invariant
            it.seq() == s@,
            (result@, next_upper) == camel_fold(it.seq().take(it.index())),
            all_ascii(s@) ==> (result@, next_upper) == ascii_camel_fold(it.seq().take(it.index())),
            forall|j: int| 0 <= j < result@.len() ==> result@[j] != '_',
    {
        proof {
            assert(it.seq().take(it.index() + 1).drop_last() =~= it.seq().take(it.index()));
        }
        if ch == '_' {
            next_upper = true;
        } else if next_upper {
            let up = uppercase(ch);
            let ghost before = result@;
            result.append(up.as_str());
            proof {
                if all_ascii(s@) {
                    assert(ch == s@[it.index()]);
                    assert(up@ =~= seq![ascii_upper(ch)]);
                }
                assert forall|j: int| 0 <= j < result@.len() implies result@[j] != '_' by {
                    if j >= before.len() {
                        assert(result@[j] == up@[j - before.len()]);
                        assert(up@.contains(up@[j - before.len()]));
                    }
                }
            }
            next_upper = false;
        } else {
            push_char(&mut result, ch);
        }
    }
    proof {
        assert(s@.take(s@.len() as int) =~= s@);
    }
    result
}

/// `s` with every `.` turned into `_`.
pub open spec fn dots_to_underscores(s: Seq<char>) -> Seq<char> {
    s.map_values(|c: char| if c == '.' { '_' } else { c })
}

/// The exported symbol for `method` of `class` in `package`.
pub open spec fn jni_symbol(package: Seq<char>, class: Seq<char>, method: Seq<char>) -> Seq<char> {
    "Java_"@ + dots_to_underscores(package) + "_"@ + class + "_"@ + camel_case(method)
}

/// Replaces every `.` of a package name with `_`: `com.example.foo` becomes
/// `com_example_foo`.
pub fn package_to_symbol(package: &str) -> (r: String)
    ensures
        r@ == dots_to_underscores(package@),
{
    let mut result = String::new();
    for ch in it: package.chars()
        invariant
            it.seq() == package@,
            result@ == dots_to_underscores(it.seq().take(it.index())),
    {
        if ch == '.' {
            push_char(&mut result, '_');
        } else {
            push_char(&mut result, ch);
        }
        proof {
            assert(result@ =~= dots_to_underscores(it.seq().take(it.index() + 1)));
        }
    }
    proof {
        assert(package@.take(package@.len() as int) =~= package@);
    }
    result
}

/// The name under which the JVM looks up the native method that the Rust function
/// `rust_fn` implements for `class` in `package`:
/// `Java_com_example_foo_Bridge_getBatteryLevel` for `get_battery_level` of
/// `Bridge` in `com.example.foo`.
pub fn jni_symbol_name(package: &str, class: &str, rust_fn: &str) -> (r: String)
    ensures
        r@ == jni_symbol(package@, class@, rust_fn@),
        all_ascii(rust_fn@) ==> r@ == "Java_"@ + dots_to_underscores(package@) + "_"@ + class@ + "_"@
            + ascii_camel_case(rust_fn@),
{
    let package_ident = package_to_symbol(package);
    let method_camel = snake_to_camel(rust_fn);
    let mut name = String::from_str("Java_");
    name.append(package_ident.as_str());
    name.append("_");
    name.append(class);
    name.append("_");
    name.append(method_camel.as_str());
    name
}

/// An argument of the `#[jni_call(...)]` attribute.
#[derive(Debug, Clone, PartialEq)]
pub enum AttributeArg {
    /// `name = "value"` with a string literal; `name` is empty where the path is not
    /// a single identifier.
    NameValue { name: String, value: String },
    /// Any other argument, which is ignored.
    Other,
}

/// The value of the last `key = "..."` argument.
pub open spec fn last_value(args: Seq<AttributeArg>, key: Seq<char>) -> Option<Seq<char>>
    decreases args.len(),
{
    if args.len() == 0 {
        None
    } else {
        match args.last() {
            AttributeArg::NameValue { name, value } => if name@ == key {
                Some(value@)
            } else {
                last_value(args.drop_last(), key)
            },
            AttributeArg::Other => last_value(args.drop_last(), key),
        }
    }
}

/// The Java package and class named by the attribute's arguments.
#[derive(Debug, Clone, PartialEq)]
pub struct JniTarget {
    pub package: Option<String>,
    pub class: Option<String>,
}

/// Picks the `package` and `class` arguments; where one is given more than once,
/// the last one counts, and other arguments are ignored.
pub fn select_target(args: &Vec<AttributeArg>) -> (t: JniTarget)
    ensures
        opt_text(t.package) == last_value(args@, "package"@),
        opt_text(t.class) == last_value(args@, "class"@),
{
    let package_key = String::from_str("package");
    let class_key = String::from_str("class");
    let mut package: Option<String> = None;
    let mut class: Option<String> = None;
    let mut i: usize = 0;
    while i < args.len()
        invariant
            0 <= i <= args@.len(),
            package_key@ == "package"@,
            class_key@ == "class"@,
            opt_text(package) == last_value(args@.take(i as int), "package"@),
            opt_text(class) == last_value(args@.take(i as int), "class"@),
        decreases args@.len() - i,
    {
        proof {
            assert(args@.take(i + 1).drop_last() =~= args@.take(i as int));
            reveal_strlit("package");
            reveal_strlit("class");
            assert("package"@.len() != "class"@.len());
        }
        match &args[i] {
            AttributeArg::NameValue { name, value } => {
                if *name == package_key {
                    package = Some(value.clone());
                } else if *name == class_key {
                    class = Some(value.clone());
                }
            },
            AttributeArg::Other => {},
        }
        i = i + 1;
    }
    proof {
        assert(args@.take(i as int) =~= args@);
    }
    JniTarget { package, class }
}

/// A name without underscores is left as it is.
pub proof fn lemma_camel_without_underscores(s: Seq<char>)
    requires
        forall|i: int| 0 <= i < s.len() ==> s[i] != '_',
    ensures
        camel_fold(s) == (s, false),
        camel_case(s) == s,
    decreases s.len(),
{
    if s.len() > 0 {
        lemma_camel_without_underscores(s.drop_last());
        assert(s.drop_last().push(s.last()) =~= s);
    }
}

/// After `s`, the next character is to be capitalised exactly when `s` ends with
/// an underscore.
pub proof fn lemma_camel_flag(s: Seq<char>)
    ensures
        camel_fold(s).1 == (s.len() > 0 && s.last() == '_'),
        ascii_camel_fold(s).1 == (s.len() > 0 && s.last() == '_'),
{
}

/// Converting `x` then `y` where `x` leaves nothing pending is converting `x + y`.
proof fn lemma_camel_fold_append(x: Seq<char>, y: Seq<char>)
    requires
        !camel_fold(x).1,
        !ascii_camel_fold(x).1,
    ensures
        camel_fold(x + y) == (camel_fold(x).0 + camel_fold(y).0, camel_fold(y).1),
        ascii_camel_fold(x + y) == (ascii_camel_fold(x).0 + ascii_camel_fold(y).0, ascii_camel_fold(y).1),
    decreases y.len(),
{
    if y.len() == 0 {
        assert(x + y =~= x);
        assert(camel_fold(x).0 + camel_fold(y).0 =~= camel_fold(x).0);
        assert(ascii_camel_fold(x).0 + ascii_camel_fold(y).0 =~= ascii_camel_fold(x).0);
    } else {
        lemma_camel_fold_append(x, y.drop_last());
        assert((x + y).drop_last() =~= x + y.drop_last());
        assert((x + y).last() == y.last());
        let fx = camel_fold(x).0;
        let fy = camel_fold(y.drop_last()).0;
        let ax = ascii_camel_fold(x).0;
        let ay = ascii_camel_fold(y.drop_last()).0;
        let c = y.last();
        assert(fx + (fy + char_uppercase(c)) =~= (fx + fy) + char_uppercase(c));
        assert(fx + fy.push(c) =~= (fx + fy).push(c));
        assert(ax + ay.push(ascii_upper(c)) =~= (ax + ay).push(ascii_upper(c)));
        assert(ax + ay.push(c) =~= (ax + ay).push(c));
    }
}

/// The conversion works segment by segment: where `a` does not end with an
/// underscore, converting `a + b` converts `a`, then `b`.
pub proof fn lemma_camel_case_append(a: Seq<char>, b: Seq<char>)
    requires
        a.len() == 0 || a.last() != '_',
    ensures
        camel_case(a + b) == camel_case(a) + camel_case(b),
        ascii_camel_case(a + b) == ascii_camel_case(a) + ascii_camel_case(b),
{
    lemma_camel_flag(a);
    lemma_camel_fold_append(a, b);
}

/// Whatever comes before it, the character `c` after an underscore is upper-cased
/// (`char::to_uppercase`; the ASCII conversion upper-cases letters) and the
/// underscore dropped: `get_battery_level_percent` ends in `Percent` however
/// long the name is.
pub proof fn lemma_camel_case_capitalises(a: Seq<char>, c: char, b: Seq<char>)
    requires
        c != '_',
    ensures
        camel_case(a + seq!['_', c] + b) == camel_case(a) + char_uppercase(c) + camel_case(b),
        ascii_camel_case(a + seq!['_', c] + b) == ascii_camel_case(a) + seq![ascii_upper(c)]
            + ascii_camel_case(b),
{
    let u = a + seq!['_'];
    let w = a + seq!['_', c];
    assert(u.drop_last() =~= a);
    assert(w.drop_last() =~= u);
    assert(u.last() == '_');
    assert(w.last() == c);
    assert(camel_fold(u) == (camel_fold(a).0, true));
    assert(ascii_camel_fold(u) == (ascii_camel_fold(a).0, true));
    assert(camel_fold(w) == (camel_fold(a).0 + char_uppercase(c), false));
    assert(ascii_camel_fold(w) == (ascii_camel_fold(a).0.push(ascii_upper(c)), false));
    lemma_camel_fold_append(w, b);
    assert(a + seq!['_', c] + b == w + b);
    assert(ascii_camel_fold(a).0.push(ascii_upper(c)) =~= ascii_camel_fold(a).0 + seq![ascii_upper(c)]);
}

} // verus!
