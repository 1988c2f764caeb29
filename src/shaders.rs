//! Assembly of shader source text from a body and a list of preprocessor
//! definitions.

use vstd::prelude::*;
use vstd::string::StringExecFns;

verus! {

/// The text of a `#define NAME` line.
pub open spec fn define_line(name: Seq<char>) -> Seq<char> {
    "#define "@ + name + "\n"@
}

/// The text of a `#define NAME VALUE` line.
pub open spec fn define_to_line(name: Seq<char>, val: Seq<char>) -> Seq<char> {
    "#define "@ + name + " "@ + val + "\n"@
}

/// The line that one `(name, value)` definition contributes.
pub open spec fn definition_line(d: (String, Option<String>)) -> Seq<char> {
    match d.1 {
        Some(v) => define_to_line(d.0@, v@),
        None => define_line(d.0@),
    }
}

/// The lines of a list of definitions, in order.
pub open spec fn definitions_text(ds: Seq<(String, Option<String>)>) -> Seq<char>
    decreases ds.len(),
{
    if ds.len() == 0 {
        Seq::empty()
    } else {
        definitions_text(ds.drop_last()) + definition_line(ds.last())
    }
}

/// Index of the first line break of `s` at or after `i`, or `s.len()` when there is none.
pub open spec fn line_end_from(s: Seq<char>, i: int) -> int
    decreases s.len() - i,
{
    if i >= s.len() {
        s.len() as int
    } else if s[i] == '\n' {
        i
    } else {
        line_end_from(s, i + 1)
    }
}

/// Does `s` open with a `#version` directive?
pub open spec fn has_version_header(s: Seq<char>) -> bool {
    s.len() >= 8 && s.subrange(0, 8) == "#version"@
}

/// The full shader text: the definitions are placed after the `#version`
/// line when there is one (which must stay first), else at the very top,
/// and are followed by a `#line 1` directive so that compiler messages keep
/// the line numbers of the body.
pub open spec fn assembled(prefix: Seq<char>, source: Seq<char>) -> Seq<char> {
    if has_version_header(source) {
        let k = line_end_from(source, 0);
        source.subrange(0, k) + "\n"@ + prefix + "#line 1\n"@ + source.subrange(k, source.len() as int)
    } else {
        prefix + "#line 1\n"@ + source
    }
}

/// Relies on `String::push`: appends one character at the end.
#[verifier::external_body]
fn push_char(s: &mut String, c: char)
    ensures
        final(s)@ == old(s)@.push(c),
{
    s.push(c);
}

/// The characters of `s`, in order.
fn chars_of(s: &str) -> (r: Vec<char>)
    ensures
        r@ == s@,
{
    let mut r: Vec<char> = Vec::new();
    for c in it: s.chars()
        invariant
            r@ == it.seq().take(it.index() as int),
            it.seq() == s@,
    {
        r.push(c);
    }
    r
}

/// Appends `s[lo..hi]` to `out`.
fn push_range(out: &mut String, s: &Vec<char>, lo: usize, hi: usize)
    requires
        lo <= hi <= s@.len(),
    ensures
        final(out)@ == old(out)@ + s@.subrange(lo as int, hi as int),
{
    let mut i = lo;
    while i < hi
        invariant
            lo <= i <= hi <= s@.len(),
            out@ == old(out)@ + s@.subrange(lo as int, i as int),
        decreases hi - i,
    {
        push_char(out, s[i]);
        i = i + 1;
        assert(out@ =~= old(out)@ + s@.subrange(lo as int, i as int));
    }
}

/// Builder of one shader's source text.
pub struct BuildShader {
    prefix: String,
    source: String,
    /// Name of the shader, for diagnostics.
    pub name: String,
}

/// Starts a shader named `name` with body `source` and no definitions.
pub fn source(name: &str, text: &str) -> (r: BuildShader)
    ensures
        r.prefix_text() == Seq::<char>::empty(),
        r.source_text() == text@,
        r.name_text() == name@,
{
    BuildShader { prefix: String::new(), source: text.to_owned(), name: name.to_owned() }
}

impl BuildShader {
    /// The definitions added so far, in order, one line each.
    pub closed spec fn prefix_text(&self) -> Seq<char> {
        self.prefix@
    }

    /// The shader's name.
    pub closed spec fn name_text(&self) -> Seq<char> {
        self.name@
    }

    /// The body of the shader.
    pub closed spec fn source_text(&self) -> Seq<char> {
        self.source@
    }

    /// Adds a `#define name` line.
    pub fn define(self, name: &str) -> (r: BuildShader)
        ensures
            r.prefix_text() == self.prefix_text() + define_line(name@),
            r.source_text() == self.source_text(),
            r.name_text() == self.name_text(),
    {
        let mut b = self;
        b.prefix.append("#define ");
        b.prefix.append(name);
        b.prefix.append("\n");
        b
    }

    /// Adds a `#define name val` line.
    pub fn define_to(self, name: &str, val: &str) -> (r: BuildShader)
        ensures
            r.prefix_text() == self.prefix_text() + define_to_line(name@, val@),
            r.source_text() == self.source_text(),
            r.name_text() == self.name_text(),
    {
        let mut b = self;
        b.prefix.append("#define ");
        b.prefix.append(name);
        b.prefix.append(" ");
        b.prefix.append(val);
        b.prefix.append("\n");
        b
    }

    /// Adds one line per definition: `#define name value` for a definition
    /// with a value, `#define name` for one without.
    pub fn vals(self, vals: &Vec<(String, Option<String>)>) -> (r: BuildShader)
        ensures
            r.prefix_text() == self.prefix_text() + definitions_text(vals@),
            r.source_text() == self.source_text(),
            r.name_text() == self.name_text(),
    {
        let mut b = self;
        let mut i: usize = 0;
        while i < vals.len()
            invariant
                i <= vals@.len(),
                b.prefix_text() == self.prefix_text() + definitions_text(vals@.take(i as int)),
                b.source_text() == self.source_text(),
                b.name_text() == self.name_text(),
            decreases vals.len() - i,
        {
            let d = &vals[i];
            b = match &d.1 {
                Some(v) => b.define_to(d.0.as_str(), v.as_str()),
                None => b.define(d.0.as_str()),
            };
            proof {
                let t = vals@.take(i + 1);
                assert(t.drop_last() =~= vals@.take(i as int));
                assert(t.last() == vals@[i as int]);
            }
            i = i + 1;
        }
        assert(vals@.take(i as int) =~= vals@);
        b
    }

    /// The finished text, as [`assembled`] describes it.
    pub fn build(self) -> (r: String)
        ensures
            r@ == assembled(self.prefix_text(), self.source_text()),
    {
        let src = chars_of(self.source.as_str());
        let n = src.len();
        let mut out = String::new();
        proof {
            reveal_strlit("#version");
            reveal_strlit("#line 1\n");
            reveal_strlit("\n");
        }
        let versioned = n >= 8 && src[0] == '#' && src[1] == 'v' && src[2] == 'e' && src[3] == 'r'
            && src[4] == 's' && src[5] == 'i' && src[6] == 'o' && src[7] == 'n';
        assert(versioned == has_version_header(src@)) by {
            if n >= 8 {
                if versioned {
                    assert(src@.subrange(0, 8) =~= "#version"@);
                } else if has_version_header(src@) {
                    assert(src@.subrange(0, 8)[0] == "#version"@[0]);
                    assert(src@.subrange(0, 8)[1] == "#version"@[1]);
                    assert(src@.subrange(0, 8)[2] == "#version"@[2]);
                    assert(src@.subrange(0, 8)[3] == "#version"@[3]);
                    assert(src@.subrange(0, 8)[4] == "#version"@[4]);
                    assert(src@.subrange(0, 8)[5] == "#version"@[5]);
                    assert(src@.subrange(0, 8)[6] == "#version"@[6]);
                    assert(src@.subrange(0, 8)[7] == "#version"@[7]);
                }
            }
        }
        if versioned {
            let mut k: usize = 0;
            while k < n && src[k] != '\n'
                invariant
                    k <= n == src@.len(),
                    line_end_from(src@, k as int) == line_end_from(src@, 0),
                decreases n - k,
            {
                k = k + 1;
            }
            push_range(&mut out, &src, 0, k);
            out.append("\n");
            out.append(self.prefix.as_str());
            out.append("#line 1\n");
            push_range(&mut out, &src, k, n);
            assert(out@ =~= assembled(self.prefix_text(), self.source_text()));
        } else {
            out.append(self.prefix.as_str());
            out.append("#line 1\n");
            push_range(&mut out, &src, 0, n);
            assert(src@.subrange(0, n as int) =~= src@);
            assert(out@ =~= assembled(self.prefix_text(), self.source_text()));
        }
        out
    }
}

} // verus!
