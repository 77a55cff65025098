use vstd::prelude::*;
use vstd::slice::slice_subrange;

verus! {

/// The text of each string, in order.
pub open spec fn texts(words: Seq<String>) -> Seq<Seq<char>> {
    words.map_values(|w: String| w@)
}

/// The text of an optional string.
pub open spec fn opt_text(o: Option<String>) -> Option<Seq<char>> {
    match o {
        Some(s) => Some(s@),
        None => None,
    }
}

/// `words` joined with one ASCII space between neighbours, in their order.
pub open spec fn joined(words: Seq<Seq<char>>) -> Seq<char>
    decreases words.len(),
{
    if words.len() == 0 {
        Seq::empty()
    } else if words.len() == 1 {
        words[0]
    } else {
        joined(words.drop_last()) + seq![' '] + words.last()
    }
}

/// What a line read from the input gives as a payload: a failed read or
/// one that yielded nothing gives none.
pub open spec fn payload_of_line(read: Option<Seq<char>>) -> Option<Seq<char>> {
    match read {
        Some(line) => if line.len() > 0 {
            Some(line)
        } else {
            None
        },
        None => None,
    }
}

/// What arguments (the program name left out) decide, when there is at
/// least one: a single one verbatim, several joined by spaces.
pub open spec fn payload_of_args(args: Seq<Seq<char>>) -> Seq<char> {
    if args.len() == 1 {
        args[0]
    } else {
        joined(args)
    }
}

/// A newline, if `s` has one, is its last character.
pub open spec fn is_single_line(s: Seq<char>) -> bool {
    forall|i: int| 0 <= i < s.len() - 1 ==> s[i] != '\n'
}

/// Relies on `BufRead::read_line` reading up to and including the first
/// newline, or to the end of the stream; a failed read gives `None`.
#[verifier::external_body]
fn read_one_line<R: std::io::BufRead + ?Sized>(input: &mut R) -> (r: Option<String>)
    ensures
        r matches Some(line) ==> is_single_line(line@),
{
    let mut buf = String::new();
    match input.read_line(&mut buf) {
        Ok(_) => Some(buf),
        Err(_) => None,
    }
}

/// Joins `words` with single spaces.
pub fn join_words(words: &[String]) -> (r: String)
    ensures
        r@ == joined(texts(words@)),
{
    let mut r = String::new();
    let mut i: usize = 0;
    while i < words.len()
        invariant
            i <= words@.len(),
            r@ == joined(texts(words@).take(i as int)),
        decreases words@.len() - i,
    {
        proof {
            assert(texts(words@).take(i as int + 1).drop_last() =~= texts(words@).take(i as int));
        }
        if i > 0 {
            r.append(" ");
            proof {
                reveal_strlit(" ");
            }
        }
        r.append(words[i].as_str());
        i = i + 1;
    }
    assert(texts(words@).take(i as int) =~= texts(words@));
    r
}

/// The payload given by the result of one line read.
pub fn line_payload(read: Option<String>) -> (r: Option<String>)
    ensures
        opt_text(r) == payload_of_line(opt_text(read)),
{
    match read {
        Some(line) => if line.as_str().is_empty() {
            None
        } else {
            Some(line)
        },
        None => None,
    }
}

/// Reads one line from `stdin` as the payload: nothing when the read fails
/// or the stream is already at its end.
pub fn _get_stdin_payload<R: std::io::BufRead + ?Sized>(stdin: &mut R) -> (r: Option<String>)
    ensures
        r matches Some(line) ==> line@.len() > 0 && is_single_line(line@),
{
    let read = read_one_line(stdin);
    line_payload(read)
}

/// The payload for `args`, whose first element is the program name: the
/// remaining arguments when there are any, else one line of `stdin`, which
/// is then the only place read.
pub fn _get_payload<R: std::io::BufRead + ?Sized>(args: &Vec<String>, stdin: &mut R) -> (r:
    Option<String>)
    requires
        args@.len() >= 1,
    ensures
        args@.len() > 1 ==> opt_text(r) == Some(payload_of_args(texts(args@).skip(1))),
        args@.len() == 1 ==> (r matches Some(line) ==> line@.len() > 0 && is_single_line(
            line@,
        )),
{
    let cli_args = slice_subrange(args.as_slice(), 1, args.len());
    assert(texts(cli_args@) =~= texts(args@).skip(1));
    if cli_args.len() == 0 {
        _get_stdin_payload(stdin)
    } else if cli_args.len() == 1 {
        Some(cli_args[0].clone())
    } else {
        Some(join_words(cli_args))
    }
}

} // verus!
