//! Rendering an error for people: the plain and alternate display forms
//! and the plain and alternate debug forms, each pinned to a spec-level
//! description of the exact text produced.
//!
//! Display shows the outermost message; its alternate form appends every
//! ancestor's message, colon-separated, down to the root. Debug shows the
//! recorded call site and the outermost message; its alternate form adds
//! the full cause list — numbered once there is more than one ancestor —
//! and the first backtrace captured anywhere in the chain.

use vstd::prelude::*;
use vstd::string::StringExecFns;

use crate::error::{message_of, obj_chain, Error, ErrorObject, Variant};
use crate::foreign::ForeignError;
use crate::location::Location;

verus! {

/// The decimal digit character for a value below ten.
pub open spec fn dec_digit(d: nat) -> char {
    if d == 0 {
        '0'
    } else if d == 1 {
        '1'
    } else if d == 2 {
        '2'
    } else if d == 3 {
        '3'
    } else if d == 4 {
        '4'
    } else if d == 5 {
        '5'
    } else if d == 6 {
        '6'
    } else if d == 7 {
        '7'
    } else if d == 8 {
        '8'
    } else {
        '9'
    }
}

/// The decimal digits of `n`, most significant first, no leading zeros
/// except for zero itself.
pub open spec fn dec_str(n: nat) -> Seq<char>
    decreases n,
{
    if n < 10 {
        seq![dec_digit(n)]
    } else {
        dec_str(n / 10) + seq![dec_digit(n % 10)]
    }
}

/// One decimal digit as text.
fn digit_str(d: u64) -> (r: &'static str)
    requires
        d < 10,
    ensures
        r@ == seq![dec_digit(d as nat)],
{
    proof {
        reveal_strlit("0");
        reveal_strlit("1");
        reveal_strlit("2");
        reveal_strlit("3");
        reveal_strlit("4");
        reveal_strlit("5");
        reveal_strlit("6");
        reveal_strlit("7");
        reveal_strlit("8");
        reveal_strlit("9");
    }
    let r = match d {
        0 => "0",
        1 => "1",
        2 => "2",
        3 => "3",
        4 => "4",
        5 => "5",
        6 => "6",
        7 => "7",
        8 => "8",
        _ => "9",
    };
    proof {
        assert(r@ =~= seq![dec_digit(d as nat)]);
    }
    r
}

/// Renders a number in decimal.
pub fn u64_to_string(n: u64) -> (r: String)
    ensures
        r@ == dec_str(n as nat),
    decreases n,
{
    if n < 10 {
        digit_str(n).to_owned()
    } else {
        let mut s = u64_to_string(n / 10);
        s.append(digit_str(n % 10));
        s
    }
}

/// The messages joined by ": ", outermost first.
pub open spec fn joined(msgs: Seq<Seq<char>>) -> Seq<char>
    decreases msgs.len(),
{
    if msgs.len() == 0 {
        Seq::empty()
    } else if msgs.len() == 1 {
        msgs[0]
    } else {
        msgs[0] + ": "@ + joined(msgs.skip(1))
    }
}

/// The rendered call site: `file(line:column)`.
pub open spec fn location_text(l: Location) -> Seq<char> {
    l.file@ + "("@ + dec_str(l.line as nat) + ":"@ + dec_str(l.column as nat) + ")"@
}

/// The plain debug form: call site, then the outermost message.
pub open spec fn debug_text(o: ErrorObject) -> Seq<char> {
    location_text(o.location) + ": "@ + message_of(o.variant)
}

/// The ancestor list of the alternate debug form, numbered from `i`, one
/// line per ancestor.
pub open spec fn numbered_lines(msgs: Seq<Seq<char>>, i: nat) -> Seq<char>
    decreases msgs.len(),
{
    if msgs.len() == 0 {
        Seq::empty()
    } else if msgs.len() == 1 {
        "    "@ + dec_str(i) + ": "@ + msgs[0]
    } else {
        "    "@ + dec_str(i) + ": "@ + msgs[0] + "\n"@ + numbered_lines(msgs.skip(1), i + 1)
    }
}

/// The cause section body: a single ancestor stands alone, more than one
/// are numbered.
pub open spec fn cause_lines(msgs: Seq<Seq<char>>) -> Seq<char> {
    if msgs.len() == 1 {
        "    "@ + msgs[0]
    } else {
        numbered_lines(msgs, 0)
    }
}

/// The first backtrace captured anywhere in the chain, outermost first: a
/// layer's own capture is looked at before the backtrace its payload may
/// embed, and before anything deeper.
pub open spec fn chain_backtrace(o: ErrorObject) -> Option<Seq<char>>
    decreases o,
{
    match o.backtrace {
        Some(b) => Some(b@),
        None => match o.variant {
            Variant::Adhoc(_) => None,
            Variant::Standard(f) => foreign_backtrace(f),
            Variant::Boxed(b2) => foreign_backtrace(b2.inner),
            Variant::Context(_, src) => chain_backtrace(*src),
        },
    }
}

/// The first backtrace a foreign error or one of its causes embeds.
pub open spec fn foreign_backtrace(f: ForeignError) -> Option<Seq<char>>
    decreases f,
{
    match f.backtrace {
        Some(b) => Some(b@),
        None => match f.source {
            Option::Some(s) => foreign_backtrace(*s),
            Option::None => None,
        },
    }
}

/// The alternate debug form: the plain debug line, a cause section when
/// there are ancestors, and a backtrace block when one was captured
/// anywhere in the chain.
pub open spec fn debug_alt_text(o: ErrorObject) -> Seq<char> {
    debug_text(o) + (if obj_chain(o).len() > 1 {
        "\n\nCaused by:\n"@ + cause_lines(obj_chain(o).skip(1))
    } else {
        Seq::<char>::empty()
    }) + (match chain_backtrace(o) {
        Some(b) => "\n\nStack backtrace:\n"@ + b,
        None => Seq::<char>::empty(),
    })
}

impl Error {
    /// Every message of the chain, outermost first.
    pub fn messages(&self) -> (r: Vec<String>)
        ensures
            r@.map_values(|s: String| s@) == self.msgs(),
            r@.len() == self.msgs().len(),
    {
        let ghost total = self.msgs();
        let mut out: Vec<String> = Vec::new();
        let mut cursor = self.chain();
        loop
            invariant
                out@.map_values(|s: String| s@) + cursor.remaining() =~= total,
            ensures
                out@.map_values(|s: String| s@) =~= total,
            decreases cursor.remaining().len(),
        {
            let ghost rem = cursor.remaining();
            let ghost seen = out@.map_values(|s: String| s@);
            match cursor.next() {
                Some(link) => {
                    out.push(link.render());
                    proof {
                        assert(out@.map_values(|s: String| s@) =~= seen.push(rem[0]));
                        assert(seen.push(rem[0]) + rem.skip(1) =~= seen + rem);
                    }
                },
                None => {
                    break ;
                },
            }
        }
        out
    }

    /// The plain display form: the outermost message alone.
    pub fn display(&self) -> (r: String)
        ensures
            r@ == self.message(),
    {
        let link = crate::chain::Link::Obj(&*self.inner.ptr);
        link.render()
    }

    /// The alternate display form: every message of the chain, outermost
    /// first, joined by ": ".
    pub fn display_alt(&self) -> (r: String)
        ensures
            r@ == joined(self.msgs()),
    {
        let parts = self.messages();
        join_colon(&parts)
    }

    /// The plain debug form: the recorded call site, then the outermost
    /// message.
    pub fn debug(&self) -> (r: String)
        ensures
            r@ == debug_text(self.obj()),
    {
        let mut s = render_location(&self.location());
        s.append(": ");
        let m = self.display();
        s.append(m.as_str());
        s
    }

    /// The alternate debug form: the plain debug line, then the causes,
    /// then the first captured backtrace.
    pub fn debug_alt(&self) -> (r: String)
        ensures
            r@ == debug_alt_text(self.obj()),
    {
        let mut s = self.debug();
        let parts = self.messages();
        if parts.len() > 1 {
            s.append("\n\nCaused by:\n");
            proof {
                assert(parts@.map_values(|x: String| x@).skip(1) =~= self.msgs().skip(1));
            }
            if parts.len() == 2 {
                s.append("    ");
                s.append(parts[1].as_str());
            } else {
                let lines = numbered_from(&parts, 1);
                s.append(lines.as_str());
            }
        }
        match self.first_backtrace() {
            Some(b) => {
                s.append("\n\nStack backtrace:\n");
                s.append(b.as_str());
            },
            None => {},
        }
        s
    }

    /// The first backtrace captured anywhere in the chain.
    pub fn first_backtrace(&self) -> (r: Option<&String>)
        ensures
            match r {
                Some(b) => chain_backtrace(self.obj()) == Some(b@),
                None => chain_backtrace(self.obj()) is None,
            },
    {
        obj_first_backtrace(&*self.inner.ptr)
    }
}

/// Walks the chain for the first captured backtrace.
fn obj_first_backtrace(o: &ErrorObject) -> (r: Option<&String>)
    ensures
        match r {
            Some(b) => chain_backtrace(*o) == Some(b@),
            None => chain_backtrace(*o) is None,
        },
    decreases *o,
{
    match &o.backtrace {
        Some(b) => Some(b),
        None => match &o.variant {
            Variant::Adhoc(_) => None,
            Variant::Standard(f) => foreign_first_backtrace(f),
            Variant::Boxed(b2) => foreign_first_backtrace(&b2.inner),
            Variant::Context(_, src) => obj_first_backtrace(&*src),
        },
    }
}

/// Walks a foreign error's causes for the first embedded backtrace.
fn foreign_first_backtrace(f: &ForeignError) -> (r: Option<&String>)
    ensures
        match r {
            Some(b) => foreign_backtrace(*f) == Some(b@),
            None => foreign_backtrace(*f) is None,
        },
    decreases *f,
{
    match &f.backtrace {
        Some(b) => Some(b),
        None => match &f.source {
            Some(s) => foreign_first_backtrace(&*s),
            None => None,
        },
    }
}

/// Renders a call site as `file(line:column)`.
pub fn render_location(l: &Location) -> (r: String)
    ensures
        r@ == location_text(*l),
{
    let mut s = l.file.to_owned();
    s.append("(");
    let line = u64_to_string(l.line as u64);
    s.append(line.as_str());
    s.append(":");
    let column = u64_to_string(l.column as u64);
    s.append(column.as_str());
    s.append(")");
    s
}

/// Joins messages with ": ".
fn join_colon(parts: &Vec<String>) -> (r: String)
    ensures
        r@ == joined(parts@.map_values(|s: String| s@)),
{
    let ghost view = parts@.map_values(|s: String| s@);
    if parts.len() == 0 {
        return String::new();
    }
    let mut i: usize = parts.len() - 1;
    let mut acc: String = parts[i].clone();
    proof {
        assert(view.skip(i as int) =~= seq![view[i as int]]);
    }
    while i > 0
        invariant
            i < parts.len(),
            view == parts@.map_values(|s: String| s@),
            view.len() == parts@.len(),
            acc@ == joined(view.skip(i as int)),
        decreases i,
    {
        i = i - 1;
        let mut piece: String = parts[i].clone();
        piece.append(": ");
        piece.append(acc.as_str());
        acc = piece;
        proof {
            let tail = view.skip(i as int);
            assert(tail.skip(1) =~= view.skip(i as int + 1));
            assert(tail[0] == view[i as int]);
        }
    }
    proof {
        assert(view.skip(0) =~= view);
    }
    acc
}

/// Renders the numbered ancestor lines, starting at entry `j` of the full
/// message list, numbering it `j - 1`.
fn numbered_from(parts: &Vec<String>, j: usize) -> (r: String)
    requires
        1 <= j < parts.len(),
    ensures
        r@ == numbered_lines(parts@.map_values(|s: String| s@).skip(j as int), (j - 1) as nat),
    decreases parts.len() - j,
{
    let ghost view = parts@.map_values(|s: String| s@);
    let mut line: String = "    ".to_owned();
    let num = u64_to_string((j - 1) as u64);
    line.append(num.as_str());
    line.append(": ");
    line.append(parts[j].as_str());
    proof {
        assert(view.skip(j as int)[0] == view[j as int]);
    }
    if j + 1 < parts.len() {
        line.append("\n");
        let rest = numbered_from(parts, j + 1);
        line.append(rest.as_str());
        proof {
            assert(view.skip(j as int).skip(1) =~= view.skip(j as int + 1));
        }
    } else {
        proof {
            assert(view.skip(j as int).len() == 1);
        }
    }
    line
}

} // verus!
