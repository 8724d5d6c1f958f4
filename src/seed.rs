use vstd::prelude::*;

verus! {

/// The characters of `s`, in order.
pub fn chars_of(s: &str) -> (r: Vec<char>)
    ensures
        r@ == s@,
{
    broadcast use vstd::string::axiom_spec_iter;
    let mut r: Vec<char> = Vec::new();
    for c in iter: s.chars()
        invariant
            iter.seq() == s@,
            r@ == iter.seq().take(iter.index() as int),
    {
        r.push(c);
    }
    r
}

// ---------------------------------------------------------------------------
// Character classes and the text operations the seed format is built from
// ---------------------------------------------------------------------------

/// Unicode White_Space, the set `char::is_whitespace` tests for.
pub open spec fn spec_is_white(c: char) -> bool {
    ||| ('\u{9}' <= c && c <= '\u{d}')
    ||| c == ' '
    ||| c == '\u{85}'
    ||| c == '\u{a0}'
    ||| c == '\u{1680}'
    ||| ('\u{2000}' <= c && c <= '\u{200a}')
    ||| c == '\u{2028}'
    ||| c == '\u{2029}'
    ||| c == '\u{202f}'
    ||| c == '\u{205f}'
    ||| c == '\u{3000}'
}

pub open spec fn spec_is_digit(c: char) -> bool {
    '0' <= c && c <= '9'
}

/// Whether `c` is Unicode white space.
pub fn is_white(c: char) -> (r: bool)
    ensures
        r == spec_is_white(c),
{
    ('\u{9}' <= c && c <= '\u{d}') || c == ' ' || c == '\u{85}' || c == '\u{a0}' || c == '\u{1680}'
        || ('\u{2000}' <= c && c <= '\u{200a}') || c == '\u{2028}' || c == '\u{2029}' || c == '\u{202f}'
        || c == '\u{205f}' || c == '\u{3000}'
}

/// Position of the first character at or after `i` that is not white space.
pub open spec fn skip_white(s: Seq<char>, i: int) -> int
    decreases s.len() - i,
{
    if 0 <= i < s.len() && spec_is_white(s[i]) {
        skip_white(s, i + 1)
    } else {
        i
    }
}

/// End of `s[lo..j]` with trailing white space removed.
pub open spec fn back_white(s: Seq<char>, j: int, lo: int) -> int
    decreases j - lo,
{
    if lo < j <= s.len() && spec_is_white(s[j - 1]) {
        back_white(s, j - 1, lo)
    } else {
        j
    }
}

/// `s` without leading and trailing white space.
pub open spec fn trim(s: Seq<char>) -> Seq<char> {
    let a = skip_white(s, 0);
    s.subrange(a, back_white(s, s.len() as int, a))
}

/// Position of the first `c` at or after `i`, or the length when there is none.
pub open spec fn index_of(s: Seq<char>, c: char, i: int) -> int
    decreases s.len() - i,
{
    if i >= s.len() || i < 0 {
        s.len() as int
    } else if s[i] == c {
        i
    } else {
        index_of(s, c, i + 1)
    }
}

/// Start of the run of non-white characters that ends at `j`.
pub open spec fn token_start(s: Seq<char>, j: int) -> int
    decreases j,
{
    if 0 < j <= s.len() && !spec_is_white(s[j - 1]) {
        token_start(s, j - 1)
    } else {
        j
    }
}

/// The last white-space separated word of a trimmed line.
pub open spec fn last_token(s: Seq<char>) -> Seq<char> {
    s.subrange(token_start(s, s.len() as int), s.len() as int)
}

proof fn lemma_skip_white_bounds(s: Seq<char>, i: int)
    requires
        0 <= i <= s.len(),
    ensures
        i <= skip_white(s, i) <= s.len(),
    decreases s.len() - i,
{
    if i < s.len() && spec_is_white(s[i]) {
        lemma_skip_white_bounds(s, i + 1);
    }
}

proof fn lemma_back_white_bounds(s: Seq<char>, j: int, lo: int)
    requires
        0 <= lo <= j <= s.len(),
    ensures
        lo <= back_white(s, j, lo) <= j,
    decreases j - lo,
{
    if lo < j && spec_is_white(s[j - 1]) {
        lemma_back_white_bounds(s, j - 1, lo);
    }
}

proof fn lemma_index_of_bounds(s: Seq<char>, c: char, i: int)
    requires
        0 <= i <= s.len(),
    ensures
        i <= index_of(s, c, i) <= s.len(),
        index_of(s, c, i) < s.len() ==> s[index_of(s, c, i)] == c,
    decreases s.len() - i,
{
    if i < s.len() && s[i] != c {
        lemma_index_of_bounds(s, c, i + 1);
    }
}

proof fn lemma_token_start_bounds(s: Seq<char>, j: int)
    requires
        0 <= j <= s.len(),
    ensures
        0 <= token_start(s, j) <= j,
    decreases j,
{
    if 0 < j && !spec_is_white(s[j - 1]) {
        lemma_token_start_bounds(s, j - 1);
    }
}

/// `s[a..b]` as a vector of its own.
fn slice(s: &Vec<char>, a: usize, b: usize) -> (r: Vec<char>)
    requires
        a <= b <= s.len(),
    ensures
        r@ == s@.subrange(a as int, b as int),
{
    let mut r: Vec<char> = Vec::new();
    let mut i = a;
    while i < b
        invariant
            a <= i <= b <= s.len(),
            r@ == s@.subrange(a as int, i as int),
        decreases b - i,
    {
        r.push(s[i]);
        i += 1;
        assert(r@ =~= s@.subrange(a as int, i as int));
    }
    r
}

/// `s` without leading and trailing white space.
pub fn trimmed(s: &Vec<char>) -> (r: Vec<char>)
    ensures
        r@ == trim(s@),
{
    let mut a: usize = 0;
    while a < s.len() && is_white(s[a])
        invariant
            a <= s.len(),
            skip_white(s@, a as int) == skip_white(s@, 0),
        decreases s.len() - a,
    {
        a += 1;
    }
    let mut b: usize = s.len();
    while b > a && is_white(s[b - 1])
        invariant
            a <= b <= s.len(),
            a == skip_white(s@, 0),
            back_white(s@, b as int, a as int) == back_white(s@, s.len() as int, a as int),
        decreases b - a,
    {
        b -= 1;
    }
    slice(s, a, b)
}

fn find(s: &Vec<char>, c: char) -> (r: usize)
    ensures
        r == index_of(s@, c, 0),
        r <= s.len(),
        r < s.len() ==> s@[r as int] == c,
{
    proof {
        lemma_index_of_bounds(s@, c, 0);
    }
    let mut i: usize = 0;
    while i < s.len() && s[i] != c
        invariant
            i <= s.len(),
            index_of(s@, c, i as int) == index_of(s@, c, 0),
        decreases s.len() - i,
    {
        i += 1;
    }
    i
}

// ---------------------------------------------------------------------------
// Numbers
// ---------------------------------------------------------------------------

/// The number that the decimal digits `s[i..]` continue from `acc`.
pub open spec fn digits_from(s: Seq<char>, i: int, acc: int) -> int
    decreases s.len() - i,
{
    if 0 <= i < s.len() {
        digits_from(s, i + 1, acc * 10 + (s[i] as int - '0' as int))
    } else {
        acc
    }
}

pub open spec fn all_digits_from(s: Seq<char>, i: int) -> bool {
    forall|k: int| i <= k < s.len() ==> spec_is_digit(#[trigger] s[k])
}

/// What `str::parse::<i32>` gives: an optional `+` or `-` followed by at least
/// one decimal digit and nothing else, when the value fits in an `i32`.
pub open spec fn spec_parse_i32(s: Seq<char>) -> Option<i32> {
    let start: int = if s.len() > 0 && (s[0] == '-' || s[0] == '+') {
        1
    } else {
        0
    };
    let negative = s.len() > 0 && s[0] == '-';
    let magnitude = digits_from(s, start, 0);
    let value = if negative {
        -magnitude
    } else {
        magnitude
    };
    if start >= s.len() || !all_digits_from(s, start) || value < i32::MIN || value > i32::MAX {
        None
    } else {
        Some(value as i32)
    }
}

proof fn lemma_digits_grow(s: Seq<char>, i: int, acc: int)
    requires
        0 <= i,
        acc >= 0,
        all_digits_from(s, i),
    ensures
        digits_from(s, i, acc) >= acc,
    decreases s.len() - i,
{
    if i < s.len() {
        assert(spec_is_digit(s[i]));
        lemma_digits_grow(s, i + 1, acc * 10 + (s[i] as int - '0' as int));
    }
}

/// Reads a decimal `i32` the way `str::parse::<i32>` does.
pub fn parse_i32(s: &Vec<char>) -> (r: Option<i32>)
    ensures
        r == spec_parse_i32(s@),
{
    let n = s.len();
    let start: usize = if n > 0 && (s[0] == '-' || s[0] == '+') {
        1
    } else {
        0
    };
    let negative = n > 0 && s[0] == '-';
    if start >= n {
        return None;
    }
    let mut k: usize = start;
    while k < n
        invariant
            start <= k <= n,
            n == s.len(),
            start as int == (if s@.len() > 0 && (s@[0] == '-' || s@[0] == '+') {
                1int
            } else {
                0int
            }),
            negative == (s@.len() > 0 && s@[0] == '-'),
            forall|m: int| start <= m < k ==> spec_is_digit(#[trigger] s@[m]),
        decreases n - k,
    {
        if !('0' <= s[k] && s[k] <= '9') {
            assert(!spec_is_digit(s@[k as int]));
            return None;
        }
        k += 1;
    }
    assert(all_digits_from(s@, start as int));
    let mut acc: i64 = 0;
    let mut i: usize = start;
    while i < n
        invariant
            start <= i <= n,
            n == s.len(),
            start as int == (if s@.len() > 0 && (s@[0] == '-' || s@[0] == '+') {
                1int
            } else {
                0int
            }),
            negative == (s@.len() > 0 && s@[0] == '-'),
            all_digits_from(s@, start as int),
            0 <= acc <= 2147483648,
            digits_from(s@, i as int, acc as int) == digits_from(s@, start as int, 0),
        decreases n - i,
    {
        assert(spec_is_digit(s@[i as int]));
        let d = (s[i] as u32 - '0' as u32) as i64;
        assert(d as int == s@[i as int] as int - '0' as int);
        acc = acc * 10 + d;
        i += 1;
        if acc > 2147483648 {
            proof {
                lemma_digits_grow(s@, i as int, acc as int);
            }
            assert(digits_from(s@, start as int, 0) > 2147483648);
            return None;
        }
    }
    if negative {
        Some((-acc) as i32)
    } else if acc > 2147483647 {
        None
    } else {
        Some(acc as i32)
    }
}

// ---------------------------------------------------------------------------
// Definitions written on one line
// ---------------------------------------------------------------------------

/// `result` with `current`, trimmed, appended when it is not empty.
pub open spec fn with_part(result: Seq<char>, current: Seq<char>) -> Seq<char> {
    if trim(current).len() > 0 {
        result + trim(current)
    } else {
        result
    }
}

/// Splits `s[i..]` at each numbering marker (a digit followed by `.`), dropping
/// the markers and empty parts, trimming each part, and joining them with
/// newlines onto `result`; `current` is the part read so far.
pub open spec fn normalize_from(s: Seq<char>, i: int, result: Seq<char>, current: Seq<char>) -> Seq<char>
    decreases s.len() - i,
{
    if i < 0 || i >= s.len() {
        with_part(result, current)
    } else if spec_is_digit(s[i]) && i + 1 < s.len() && s[i + 1] == '.' {
        let flushed = if trim(current).len() > 0 {
            result + trim(current) + seq!['\n']
        } else {
            result
        };
        normalize_from(s, i + 2, flushed, Seq::empty())
    } else {
        normalize_from(s, i + 1, result, current.push(s[i]))
    }
}

/// A definition with inline numbering (`1. strict 2. plain`) as one sense per line.
pub open spec fn normalize(s: Seq<char>) -> Seq<char> {
    normalize_from(s, 0, Seq::empty(), Seq::empty())
}

fn extend(dst: &mut Vec<char>, src: &Vec<char>)
    ensures
        final(dst)@ == old(dst)@ + src@,
{
    let mut i: usize = 0;
    while i < src.len()
        invariant
            i <= src.len(),
            dst@ == old(dst)@ + src@.subrange(0, i as int),
        decreases src.len() - i,
    {
        dst.push(src[i]);
        i += 1;
        assert(dst@ =~= old(dst)@ + src@.subrange(0, i as int));
    }
    assert(src@.subrange(0, src.len() as int) =~= src@);
}

/// Puts each numbered sense of a one-line definition on a line of its own:
/// `1. strict and stern 2. lacking luxury` becomes
/// `strict and stern\nlacking luxury`.
pub fn normalize_inline_definitions(input: &Vec<char>) -> (r: Vec<char>)
    ensures
        r@ == normalize(input@),
{
    let mut result: Vec<char> = Vec::new();
    let mut current: Vec<char> = Vec::new();
    let mut i: usize = 0;
    while i < input.len()
        invariant
            i <= input.len(),
            normalize_from(input@, i as int, result@, current@) == normalize(input@),
        decreases input.len() - i,
    {
        let c = input[i];
        if '0' <= c && c <= '9' && i + 1 < input.len() && input[i + 1] == '.' {
            let ghost before = result@;
            let part = trimmed(&current);
            if part.len() > 0 {
                extend(&mut result, &part);
                result.push('\n');
                assert(result@ =~= before + trim(current@) + seq!['\n']);
            }
            current = Vec::new();
            assert(current@ =~= Seq::<char>::empty());
            i += 2;
        } else {
            current.push(c);
            i += 1;
        }
    }
    let part = trimmed(&current);
    if part.len() > 0 {
        extend(&mut result, &part);
    }
    result
}

// ---------------------------------------------------------------------------
// The seed file
// ---------------------------------------------------------------------------

/// One word read from a seed file.
#[derive(Debug, Clone)]
pub struct SeedEntry {
    pub word: Vec<char>,
    pub group_id: i32,
    pub definition: Vec<char>,
}

impl SeedEntry {
    pub open spec fn spec_tuple(self) -> (Seq<char>, i32, Seq<char>) {
        (self.word@, self.group_id, self.definition@)
    }
}

/// Why a seed file cannot be read.
#[derive(Debug, Clone, Copy, PartialEq, Eq, Structural)]
pub enum SeedError {
    /// A `Group` line does not end in a number that fits an `i32`.
    InvalidGroupNumber,
}

/// Reading progress: the current group, the word being read and its
/// definition so far, and the entries completed.
pub struct SeedProgress {
    pub group_id: i32,
    pub word: Option<Seq<char>>,
    pub definition: Seq<char>,
    pub entries: Seq<(Seq<char>, i32, Seq<char>)>,
}

/// The progress at the start of a file.
pub open spec fn seed_start() -> SeedProgress {
    SeedProgress { group_id: 0, word: None, definition: Seq::empty(), entries: Seq::empty() }
}

/// Completes the word being read, if any, with its trimmed definition.
pub open spec fn flush(p: SeedProgress) -> SeedProgress {
    match p.word {
        Some(w) => SeedProgress {
            group_id: p.group_id,
            word: None,
            definition: Seq::empty(),
            entries: p.entries.push((w, p.group_id, trim(p.definition))),
        },
        None => SeedProgress { group_id: p.group_id, word: None, definition: Seq::empty(), entries: p.entries },
    }
}

/// `text` as a further line of `definition`.
pub open spec fn add_line(definition: Seq<char>, text: Seq<char>) -> Seq<char> {
    if definition.len() > 0 {
        definition + seq!['\n'] + text
    } else {
        text
    }
}

pub open spec fn is_group_line(line: Seq<char>) -> bool {
    &&& line.len() >= 5
    &&& line[0] == 'G' && line[1] == 'r' && line[2] == 'o' && line[3] == 'u' && line[4] == 'p'
}

/// One line of a seed file, after trimming: blank lines are skipped; a line
/// starting with `Group` completes the current word and sets the group to the
/// number at its end; a line starting with a digit and holding a `.` adds what
/// follows the first `.` as a further definition line; a line starting with
/// `(` is a further definition line as it stands; any other line completes the
/// current word and starts a new one: its first space-separated part is the
/// word, the rest its definition, with inline numbering put on separate lines.
pub open spec fn seed_step(p: SeedProgress, raw: Seq<char>) -> Result<SeedProgress, SeedError> {
    let line = trim(raw);
    if line.len() == 0 {
        Ok(p)
    } else if is_group_line(line) {
        let f = flush(p);
        match spec_parse_i32(last_token(line)) {
            Some(g) => Ok(SeedProgress { group_id: g, ..f }),
            None => Err(SeedError::InvalidGroupNumber),
        }
    } else if spec_is_digit(line[0]) && index_of(line, '.', 0) < line.len() {
        let cleaned = trim(line.subrange(index_of(line, '.', 0) + 1, line.len() as int));
        Ok(SeedProgress { definition: add_line(p.definition, cleaned), ..p })
    } else if line[0] == '(' {
        Ok(SeedProgress { definition: add_line(p.definition, line), ..p })
    } else {
        let f = flush(p);
        let j = index_of(line, ' ', 0);
        let rest = if j < line.len() {
            line.subrange(j + 1, line.len() as int)
        } else {
            Seq::empty()
        };
        Ok(SeedProgress { word: Some(line.subrange(0, j)), definition: normalize(trim(rest)), ..f })
    }
}

/// Reads `s[i..]` line by line (lines end at `\n`), `line` being the part of
/// the current line read so far; the word being read is completed at the end.
pub open spec fn seed_from(s: Seq<char>, i: int, line: Seq<char>, p: SeedProgress) -> Result<SeedProgress, SeedError>
    decreases s.len() - i,
{
    if i < 0 || i >= s.len() {
        match seed_step(p, line) {
            Ok(q) => Ok(flush(q)),
            Err(e) => Err(e),
        }
    } else if s[i] == '\n' {
        match seed_step(p, line) {
            Ok(q) => seed_from(s, i + 1, Seq::empty(), q),
            Err(e) => Err(e),
        }
    } else {
        seed_from(s, i + 1, line.push(s[i]), p)
    }
}

/// The entries of a seed file, in order: (word, group, definition).
pub open spec fn spec_parse_seed(s: Seq<char>) -> Result<Seq<(Seq<char>, i32, Seq<char>)>, SeedError> {
    match seed_from(s, 0, Seq::empty(), seed_start()) {
        Ok(p) => Ok(p.entries),
        Err(e) => Err(e),
    }
}

struct SeedReader {
    group_id: i32,
    word: Option<Vec<char>>,
    definition: Vec<char>,
    entries: Vec<SeedEntry>,
}

impl SeedReader {
    spec fn progress(&self) -> SeedProgress {
        SeedProgress {
            group_id: self.group_id,
            word: match self.word {
                Some(w) => Some(w@),
                None => None,
            },
            definition: self.definition@,
            entries: self.entries@.map_values(|e: SeedEntry| e.spec_tuple()),
        }
    }

    fn flush_current(&mut self)
        ensures
            final(self).progress() == flush(old(self).progress()),
    {
        let taken = self.word.take();
        match taken {
            Some(word) => {
                let definition = trimmed(&self.definition);
                let ghost before = self.entries@;
                let entry = SeedEntry { word, group_id: self.group_id, definition };
                self.entries.push(entry);
                assert(self.entries@.map_values(|e: SeedEntry| e.spec_tuple()) =~= before.map_values(
                    |e: SeedEntry| e.spec_tuple(),
                ).push(entry.spec_tuple()));
            },
            None => {},
        }
        self.definition = Vec::new();
        assert(self.definition@ =~= Seq::<char>::empty());
    }

    fn add_definition_line(&mut self, text: Vec<char>)
        ensures
            final(self).progress() == (SeedProgress {
                definition: add_line(old(self).progress().definition, text@),
                ..old(self).progress()
            }),
    {
        if self.definition.len() > 0 {
            self.definition.push('\n');
            extend(&mut self.definition, &text);
            assert(self.definition@ =~= old(self).definition@ + seq!['\n'] + text@);
        } else {
            self.definition = text;
        }
    }

    fn step(&mut self, raw: &Vec<char>) -> (r: Result<(), SeedError>)
        ensures
            match seed_step(old(self).progress(), raw@) {
                Ok(p) => r is Ok && final(self).progress() == p,
                Err(e) => r == Err::<(), SeedError>(e),
            },
    {
        let line = trimmed(raw);
        let n = line.len();
        if n == 0 {
            return Ok(());
        }
        if n >= 5 && line[0] == 'G' && line[1] == 'r' && line[2] == 'o' && line[3] == 'u' && line[4] == 'p' {
            self.flush_current();
            let mut t: usize = n;
            proof {
                lemma_token_start_bounds(line@, n as int);
            }
            while t > 0 && !is_white(line[t - 1])
                invariant
                    t <= n,
                    n == line.len(),
                    token_start(line@, t as int) == token_start(line@, n as int),
                decreases t,
            {
                t -= 1;
            }
            let token = slice(&line, t, n);
            return match parse_i32(&token) {
                Some(g) => {
                    self.group_id = g;
                    Ok(())
                },
                None => Err(SeedError::InvalidGroupNumber),
            };
        }
        let dot = find(&line, '.');
        if '0' <= line[0] && line[0] <= '9' && dot < n {
            let after = slice(&line, dot + 1, n);
            let cleaned = trimmed(&after);
            self.add_definition_line(cleaned);
            return Ok(());
        }
        if line[0] == '(' {
            self.add_definition_line(line);
            return Ok(());
        }
        self.flush_current();
        let space = find(&line, ' ');
        let word = slice(&line, 0, space);
        let rest = if space < n {
            slice(&line, space + 1, n)
        } else {
            Vec::new()
        };
        assert(space >= n ==> rest@ =~= Seq::<char>::empty());
        let definition = normalize_inline_definitions(&trimmed(&rest));
        self.word = Some(word);
        self.definition = definition;
        Ok(())
    }
}

/// Reads a seed file: groups of words, each word with its definition, as
/// (word, group, definition) entries in file order.
pub fn parse_seed(content: &str) -> (r: Result<Vec<SeedEntry>, SeedError>)
    ensures
        match spec_parse_seed(content@) {
            Ok(entries) => r matches Ok(v) && v@.map_values(|e: SeedEntry| e.spec_tuple()) == entries,
            Err(e) => r == Err::<Vec<SeedEntry>, SeedError>(e),
        },
{
    let s = chars_of(content);
    let mut reader = SeedReader {
        group_id: 0,
        word: None,
        definition: Vec::new(),
        entries: Vec::new(),
    };
    assert(reader.progress() == seed_start()) by {
        assert(reader.definition@ =~= Seq::<char>::empty());
        assert(reader.entries@.map_values(|e: SeedEntry| e.spec_tuple()) =~= Seq::<(Seq<char>, i32, Seq<char>)>::empty());
    }
    let mut line: Vec<char> = Vec::new();
    let mut i: usize = 0;
    while i < s.len()
        invariant
            i <= s.len(),
            s@ == content@,
            seed_from(s@, i as int, line@, reader.progress()) == seed_from(s@, 0, Seq::empty(), seed_start()),
        decreases s.len() - i,
    {
        if s[i] == '\n' {
            let ghost p0 = reader.progress();
            match reader.step(&line) {
                Ok(()) => {},
                Err(e) => {
                    assert(seed_from(s@, i as int, line@, p0) == Err::<SeedProgress, SeedError>(e));
                    return Err(e);
                },
            }
            line = Vec::new();
            assert(line@ =~= Seq::<char>::empty());
        } else {
            line.push(s[i]);
        }
        i += 1;
    }
    match reader.step(&line) {
        Ok(()) => {},
        Err(e) => {
            return Err(e);
        },
    }
    reader.flush_current();
    Ok(reader.entries)
}

} // verus!
