//! Query options and the exact argument lists of the two subprocesses, plus
//! the editor command line.
use vstd::prelude::*;

use crate::ansi::chars_to_string;
use crate::text::{
    dec_str, find_from, is_space, lemma_find_from, lemma_trim_subrange, push_decimal, trim,
    views_of,
};
use vstd::string::{StrSliceExecFns, StringExecFns};

verus! {

/// The options of one search: the query, whether hidden files are searched,
/// and a semicolon-separated list of glob filters. A new search job is spawned
/// whenever any field changes.
pub struct Options {
    pub show_hidden: bool,
    pub prompt: String,
    pub glob: String,
}

/// The mathematical image of `Options`.
#[verifier::ext_equal]
pub struct OptionsModel {
    pub show_hidden: bool,
    pub prompt: Seq<char>,
    pub glob: Seq<char>,
}

impl View for Options {
    type V = OptionsModel;

    open spec fn view(&self) -> OptionsModel {
        OptionsModel { show_hidden: self.show_hidden, prompt: self.prompt@, glob: self.glob@ }
    }
}

/// The glob filter arguments contributed by the segments of `g` from index
/// `i` on: the field splits on `;`, each segment is trimmed, and each
/// segment that is left nonempty contributes a `--glob` flag and the segment.
pub open spec fn glob_args_spec(g: Seq<char>, i: int) -> Seq<Seq<char>>
    decreases g.len() - i,
    when 0 <= i <= g.len()
    via glob_args_spec_dec
{
    let j = find_from(g, i, ';');
    let seg = trim(g.subrange(i, j));
    let here: Seq<Seq<char>> = if seg.len() == 0 {
        Seq::empty()
    } else {
        seq!["--glob"@, seg]
    };
    if j == g.len() {
        here
    } else {
        here + glob_args_spec(g, j + 1)
    }
}

#[via_fn]
proof fn glob_args_spec_dec(g: Seq<char>, i: int) {
    lemma_find_from(g, i, ';');
}

/// The full argument list of the search subprocess: column numbers, forced
/// color, the hidden-file flag, the glob filters, and the query last.
pub open spec fn search_args_spec(o: OptionsModel) -> Seq<Seq<char>> {
    seq![
        "--column"@,
        "--color=always"@,
        if o.show_hidden {
            "--hidden"@
        } else {
            "--no-hidden"@
        },
    ] + glob_args_spec(o.glob, 0) + seq![o.prompt]
}

fn exec_is_space(c: char) -> (r: bool)
    ensures
        r == is_space(c),
{
    c == ' ' || c == '\t' || c == '\r' || c == '\n'
}

/// First occurrence of the character `t` in `s` at or after `from` (a char
/// index); `s@.len()` when absent.
fn find_char(s: &str, from: usize, n: usize, t: char) -> (r: usize)
    requires
        from <= n == s@.len(),
    ensures
        r == find_from(s@, from as int, t),
{
    let mut i = from;
    while i < n
        invariant
            from <= i <= n == s@.len(),
            find_from(s@, from as int, t) == find_from(s@, i as int, t),
        decreases n - i,
    {
        if s.get_char(i) == t {
            assert(find_from(s@, i as int, t) == i);
            return i;
        }
        i = i + 1;
    }
    assert(find_from(s@, i as int, t) == s@.len());
    i
}

fn push_glob_args(glob: &String, args: &mut Vec<String>)
    ensures
        views_of(final(args)@) == views_of(old(args)@) + glob_args_spec(glob@, 0),
{
    let s = glob.as_str();
    let n = s.unicode_len();
    let mut i: usize = 0;
    loop
        invariant_except_break
            views_of(old(args)@) + glob_args_spec(glob@, 0) == views_of(args@) + glob_args_spec(
                s@,
                i as int,
            ),
        invariant
            0 <= i <= n,
            n == s@.len(),
            s@ == glob@,
        ensures
            views_of(args@) == views_of(old(args)@) + glob_args_spec(glob@, 0),
        decreases n - i,
    {
        let j = find_char(s, i, n, ';');
        proof {
            lemma_find_from(s@, i as int, ';');
        }
        let mut a = i;
        let mut b = j;
        while a < b && exec_is_space(s.get_char(a))
            invariant
                i <= a <= b == j <= n,
                n == s@.len(),
                forall|k: int| i <= k < a ==> is_space(s@[k]),
            decreases b - a,
        {
            a = a + 1;
        }
        while b > a && exec_is_space(s.get_char(b - 1))
            invariant
                i <= a <= b <= j <= n,
                n == s@.len(),
                forall|k: int| b <= k < j ==> is_space(s@[k]),
            decreases b,
        {
            b = b - 1;
        }
        let ghost seg = s@.subrange(i as int, j as int);
        proof {
            lemma_trim_subrange(seg, a - i, b - i);
            assert(seg.subrange(a - i, b - i) =~= s@.subrange(a as int, b as int));
        }
        if a < b {
            let ghost before = args@;
            args.push(String::from_str("--glob"));
            let piece = s.substring_char(a, b).to_owned();
            args.push(piece);
            proof {
                assert(views_of(args@) =~= views_of(before) + seq!["--glob"@, trim(seg)]);
            }
        } else {
            proof {
                assert(trim(seg).len() == 0);
            }
        }
        if j == n {
            proof {
                assert(glob_args_spec(s@, i as int) == (if trim(seg).len() == 0 {
                    Seq::<Seq<char>>::empty()
                } else {
                    seq!["--glob"@, trim(seg)]
                }));
                assert(views_of(args@) + glob_args_spec(s@, n as int) =~= views_of(args@));
            }
            break ;
        }
        proof {
            assert(glob_args_spec(s@, i as int) == (if trim(seg).len() == 0 {
                Seq::<Seq<char>>::empty()
            } else {
                seq!["--glob"@, trim(seg)]
            }) + glob_args_spec(s@, j + 1));
        }
        i = j + 1;
    }
}

/// Builds the search subprocess's arguments from the options, exactly as
/// `search_args_spec` states them.
pub fn search_args(options: &Options) -> (args: Vec<String>)
    ensures
        views_of(args@) == search_args_spec(options@),
{
    let mut args: Vec<String> = Vec::new();
    args.push(String::from_str("--column"));
    args.push(String::from_str("--color=always"));
    if options.show_hidden {
        args.push(String::from_str("--hidden"));
    } else {
        args.push(String::from_str("--no-hidden"));
    }
    let ghost head = views_of(args@);
    proof {
        assert(head =~= seq![
            "--column"@,
            "--color=always"@,
            if options.show_hidden {
                "--hidden"@
            } else {
                "--no-hidden"@
            },
        ]);
    }
    push_glob_args(&options.glob, &mut args);
    let ghost mid = views_of(args@);
    args.push(options.prompt.clone());
    proof {
        assert(views_of(args@) =~= mid.push(options.prompt@));
        assert(views_of(args@) =~= search_args_spec(options@));
    }
    args
}

/// The decimal representation of `n` as a string.
pub fn u32_string(n: u32) -> (r: String)
    ensures
        r@ == dec_str(n as nat),
{
    let mut v: Vec<char> = Vec::new();
    push_decimal(n, &mut v);
    chars_to_string(v)
}

/// The argument list of the preview renderer: forced color, line numbers, a
/// highlight for the target line when one is known, and the path last.
pub open spec fn preview_args_spec(path: Seq<char>, line: Option<u32>) -> Seq<Seq<char>> {
    match line {
        Some(n) => seq!["--color=always"@, "-n"@, "-H"@, dec_str(n as nat), path],
        None => seq!["--color=always"@, "-n"@, path],
    }
}

/// Builds the preview subprocess's arguments for one target location.
pub fn preview_args(path: &String, line: Option<u32>) -> (args: Vec<String>)
    ensures
        views_of(args@) == preview_args_spec(path@, line),
{
    let mut args: Vec<String> = Vec::new();
    args.push(String::from_str("--color=always"));
    args.push(String::from_str("-n"));
    match line {
        Some(n) => {
            args.push(String::from_str("-H"));
            args.push(u32_string(n));
        },
        None => {},
    }
    args.push(path.clone());
    proof {
        assert(views_of(args@) =~= preview_args_spec(path@, line));
    }
    args
}

/// The shell command that opens the target in the user's editor: a jump to
/// the line and the quoted path when a line number is known, or just the
/// quoted path.
pub open spec fn editor_command_spec(path: Seq<char>, line: Option<u32>) -> Seq<char> {
    match line {
        Some(n) => "$EDITOR +"@ + dec_str(n as nat) + " \""@ + path + "\""@,
        None => "$EDITOR \""@ + path + "\""@,
    }
}

/// Builds the editor command line for one target location.
pub fn editor_command(path: &String, line: Option<u32>) -> (r: String)
    ensures
        r@ == editor_command_spec(path@, line),
{
    match line {
        Some(n) => {
            let mut cmd = String::from_str("$EDITOR +");
            let num = u32_string(n);
            cmd.append(num.as_str());
            cmd.append(" \"");
            cmd.append(path.as_str());
            cmd.append("\"");
            proof {
                assert(cmd@ =~= editor_command_spec(path@, line));
            }
            cmd
        },
        None => {
            let mut cmd = String::from_str("$EDITOR \"");
            cmd.append(path.as_str());
            cmd.append("\"");
            proof {
                assert(cmd@ =~= editor_command_spec(path@, line));
            }
            cmd
        },
    }
}

} // verus!
