//! The flag table: the mapping from secret flag strings to reward role ids.
//!
//! The table is loaded once at startup from a line-oriented text file where
//! each line reads `<flag>:<role-id>`: the flag is everything before the
//! first `:`, taken verbatim, and the role id is the rest of the line, which
//! must be a decimal unsigned 64-bit integer. Any malformed line makes the
//! whole load fail: the bot is useless without its reward table, so there is
//! no partial table and no recovery.

use vstd::prelude::*;

verus! {

/// One entry of the flag table.
#[derive(Clone, Debug, PartialEq, Eq)]
pub struct FlagEntry {
    /// The secret flag string, an exact-match key.
    pub flag: String,
    /// The role rewarded for submitting it.
    pub role_id: u64,
}

/// Why loading the flag table failed.
#[derive(Clone, Copy, PartialEq, Eq, Structural, Debug)]
pub enum LoadError {
    /// A line had no `:` separator.
    MissingSeparator,
    /// The text after the first `:` was not a decimal `u64`.
    BadRoleId,
}

/// Index of the first `:` in `line`, or `line.len()` when there is none.
pub open spec fn sep_index(line: Seq<char>) -> int
    decreases line.len(),
{
    if line.len() == 0 {
        0
    } else if line[0] == ':' {
        0
    } else {
        1 + sep_index(line.drop_first())
    }
}

/// The line has a `:` separator.
pub open spec fn has_sep(line: Seq<char>) -> bool {
    sep_index(line) < line.len()
}

/// The flag field: everything before the first `:`.
pub open spec fn line_flag(line: Seq<char>) -> Seq<char> {
    line.take(sep_index(line))
}

/// The role field: everything after the first `:`.
pub open spec fn line_role_field(line: Seq<char>) -> Seq<char> {
    line.skip(sep_index(line) + 1)
}

pub proof fn lemma_sep_index(line: Seq<char>)
    ensures
        0 <= sep_index(line) <= line.len(),
        forall|j: int| 0 <= j < sep_index(line) ==> line[j] != ':',
        sep_index(line) < line.len() ==> line[sep_index(line)] == ':',
    decreases line.len(),
{
    if line.len() > 0 && line[0] != ':' {
        lemma_sep_index(line.drop_first());
        assert forall|j: int| 0 <= j < sep_index(line) implies line[j] != ':' by {
            if j > 0 {
                assert(line.drop_first()[j - 1] != ':');
            }
        }
    }
}

/// An ASCII decimal digit.
pub open spec fn is_digit(c: char) -> bool {
    '0' as u32 <= c as u32 && c as u32 <= '9' as u32
}

/// The value of a digit character.
pub open spec fn digit_val(c: char) -> int {
    c as u32 - '0' as u32
}

/// Every character of `s` is a digit.
pub open spec fn all_digits(s: Seq<char>) -> bool {
    forall|i: int| 0 <= i < s.len() ==> is_digit(#[trigger] s[i])
}

/// The number a digit string denotes, most significant digit first.
pub open spec fn num_val(s: Seq<char>) -> int
    decreases s.len(),
{
    if s.len() == 0 {
        0
    } else {
        num_val(s.drop_last()) * 10 + digit_val(s.last())
    }
}

/// `s` is a decimal numeral that fits in a `u64`.
pub open spec fn is_role_id(s: Seq<char>) -> bool {
    s.len() > 0 && all_digits(s) && num_val(s) <= u64::MAX
}

proof fn lemma_num_val_nonneg(s: Seq<char>)
    requires
        all_digits(s),
    ensures
        num_val(s) >= 0,
    decreases s.len(),
{
    if s.len() > 0 {
        assert(all_digits(s.drop_last()));
        lemma_num_val_nonneg(s.drop_last());
    }
}

proof fn lemma_num_val_monotone(s: Seq<char>, i: int)
    requires
        all_digits(s),
        0 <= i <= s.len(),
    ensures
        num_val(s.take(i)) <= num_val(s),
    decreases s.len() - i,
{
    if i == s.len() {
        assert(s.take(i) =~= s);
    } else {
        lemma_num_val_monotone(s, i + 1);
        assert(s.take(i + 1).drop_last() =~= s.take(i));
        assert(all_digits(s.take(i)));
        lemma_num_val_nonneg(s.take(i));
        assert(num_val(s.take(i + 1)) == num_val(s.take(i)) * 10 + digit_val(s[i]));
    }
}

/// Parses a decimal `u64`: `Some` exactly on nonempty all-digit strings
/// whose value fits.
pub fn parse_u64(s: &str) -> (r: Option<u64>)
    ensures
        is_role_id(s@) ==> r == Some((num_val(s@) as u64)),
        !is_role_id(s@) ==> r is None,
{
    let n = s.unicode_len();
    if n == 0 {
        return None;
    }
    let mut i: usize = 0;
    let mut acc: u64 = 0;
    while i < n
        invariant
            0 <= i <= n,
            n == s@.len(),
            all_digits(s@.take(i as int)),
            acc == num_val(s@.take(i as int)),
        decreases n - i,
    {
        let c = s.get_char(i);
        let u = c as u32;
        if !('0' as u32 <= u && u <= '9' as u32) {
            assert(!is_digit(s@[i as int]));
            return None;
        }
        let d = (u - '0' as u32) as u64;
        proof {
            assert(s@.take(i + 1).drop_last() =~= s@.take(i as int));
            assert(s@.take(i + 1).last() == s@[i as int]);
            assert(num_val(s@.take(i + 1)) == acc * 10 + d);
        }
        if acc > u64::MAX / 10 || (acc == u64::MAX / 10 && d > u64::MAX % 10) {
            proof {
                assert(acc * 10 + d > u64::MAX);
                if all_digits(s@) {
                    lemma_num_val_monotone(s@, i + 1);
                }
            }
            return None;
        }
        acc = acc * 10 + d;
        i = i + 1;
    }
    proof {
        assert(s@.take(n as int) =~= s@);
    }
    Some(acc)
}

/// The error reported for a bad line.
pub open spec fn line_error(line: Seq<char>) -> LoadError {
    if !has_sep(line) {
        LoadError::MissingSeparator
    } else {
        LoadError::BadRoleId
    }
}

/// The line splits on its first `:` into a flag and a valid role id.
pub open spec fn line_ok(line: Seq<char>) -> bool {
    has_sep(line) && is_role_id(line_role_field(line))
}

/// Parses one `flag:role_id` line of the table file.
pub fn parse_line(line: &str) -> (r: Result<FlagEntry, LoadError>)
    ensures
        line_ok(line@) ==> (r matches Ok(e) && e.flag@ == line_flag(line@) && e.role_id == num_val(
            line_role_field(line@),
        )),
        !line_ok(line@) ==> r == Err::<FlagEntry, LoadError>(line_error(line@)),
{
    let n = line.unicode_len();
    let mut i: usize = 0;
    while i < n && line.get_char(i) != ':'
        invariant
            0 <= i <= n,
            n == line@.len(),
            forall|j: int| 0 <= j < i ==> line@[j] != ':',
        decreases n - i,
    {
        i = i + 1;
    }
    proof {
        lemma_sep_index(line@);
        assert(sep_index(line@) == i);
    }
    if i == n {
        return Err(LoadError::MissingSeparator);
    }
    let flag_str = line.substring_char(0, i);
    let field = line.substring_char(i + 1, n);
    proof {
        assert(flag_str@ =~= line_flag(line@));
        assert(field@ =~= line_role_field(line@));
    }
    match parse_u64(field) {
        None => Err(LoadError::BadRoleId),
        Some(role_id) => {
            proof {
                assert(all_digits(field@));
                lemma_num_val_nonneg(field@);
            }
            Ok(FlagEntry { flag: flag_str.to_owned(), role_id })
        },
    }
}

/// The map a sequence of entries denotes; a later entry for the same flag
/// wins, as repeated insertion would have it.
pub open spec fn map_of(entries: Seq<FlagEntry>) -> Map<Seq<char>, u64>
    decreases entries.len(),
{
    if entries.len() == 0 {
        Map::empty()
    } else {
        map_of(entries.drop_last()).insert(entries.last().flag@, entries.last().role_id)
    }
}

/// The table denoted by a sequence of lines that all parse.
pub open spec fn table_of(lines: Seq<Seq<char>>) -> Map<Seq<char>, u64>
    decreases lines.len(),
{
    if lines.len() == 0 {
        Map::empty()
    } else {
        table_of(lines.drop_last()).insert(
            line_flag(lines.last()),
            num_val(line_role_field(lines.last())) as u64,
        )
    }
}

/// Every line parses.
pub open spec fn lines_ok(lines: Seq<Seq<char>>) -> bool {
    forall|i: int| 0 <= i < lines.len() ==> line_ok(#[trigger] lines[i])
}

proof fn lemma_map_of_absent(entries: Seq<FlagEntry>, k: Seq<char>)
    requires
        forall|i: int| 0 <= i < entries.len() ==> (#[trigger] entries[i]).flag@ != k,
    ensures
        !map_of(entries).contains_key(k),
    decreases entries.len(),
{
    if entries.len() > 0 {
        lemma_map_of_absent(entries.drop_last(), k);
    }
}

proof fn lemma_map_of_found(entries: Seq<FlagEntry>, k: Seq<char>, i: int)
    requires
        0 <= i < entries.len(),
        entries[i].flag@ == k,
        forall|j: int| i < j < entries.len() ==> (#[trigger] entries[j]).flag@ != k,
    ensures
        map_of(entries).contains_key(k),
        map_of(entries)[k] == entries[i].role_id,
    decreases entries.len(),
{
    if i < entries.len() - 1 {
        lemma_map_of_found(entries.drop_last(), k, i);
    }
}

/// The flag table: an immutable mapping from flag strings to role ids,
/// loaded once at startup.
#[derive(Clone, Debug, PartialEq, Eq)]
pub struct FlagTable {
    entries: Vec<FlagEntry>,
}

impl View for FlagTable {
    type V = Map<Seq<char>, u64>;

    closed spec fn view(&self) -> Map<Seq<char>, u64> {
        map_of(self.entries@)
    }
}

impl FlagTable {
    /// Builds the table from the lines of the flag file. Fails on the first
    /// malformed line, returning no table at all.
    pub fn load(lines: &Vec<String>) -> (r: Result<FlagTable, LoadError>)
        ensures
            lines_ok(lines.deep_view()) ==> (r matches Ok(t) && t@ == table_of(lines.deep_view())),
            !lines_ok(lines.deep_view()) ==> (r matches Err(e) && exists|i: int|
                {
                    &&& 0 <= i < lines.deep_view().len()
                    &&& !line_ok(#[trigger] lines.deep_view()[i])
                    &&& forall|j: int| 0 <= j < i ==> line_ok(#[trigger] lines.deep_view()[j])
                    &&& e == line_error(lines.deep_view()[i])
                }),
    {
        let ghost l = lines.deep_view();
        let mut entries: Vec<FlagEntry> = Vec::new();
        let n = lines.len();
        let mut idx: usize = 0;
        while idx < n
            invariant
                0 <= idx <= n,
                n == lines@.len(),
                l == lines.deep_view(),
                forall|j: int| 0 <= j < idx ==> line_ok(#[trigger] l[j]),
                map_of(entries@) == table_of(l.take(idx as int)),
            decreases n - idx,
        {
            let ghost old_entries = entries@;
            match parse_line(lines[idx].as_str()) {
                Ok(e) => {
                    proof {
                        assert(l[idx as int] == lines@[idx as int]@);
                        assert(line_ok(l[idx as int]));
                    }
                    entries.push(e);
                    proof {
                        assert(entries@.drop_last() =~= old_entries);
                        assert(l.take(idx + 1).drop_last() =~= l.take(idx as int));
                        assert(l.take(idx + 1).last() == l[idx as int]);
                        assert(map_of(entries@) == table_of(l.take(idx + 1)));
                    }
                },
                Err(err) => {
                    proof {
                        assert(l[idx as int] == lines@[idx as int]@);
                        assert(!line_ok(l[idx as int]));
                        assert(err == line_error(l[idx as int]));
                    }
                    return Err(err);
                },
            }
            idx = idx + 1;
        }
        proof {
            assert(l.take(n as int) =~= l);
        }
        Ok(FlagTable { entries })
    }

    /// Exact-match, case-sensitive lookup of a flag.
    pub fn lookup(&self, flag: &str) -> (r: Option<u64>)
        ensures
            self@.contains_key(flag@) ==> r == Some(self@[flag@]),
            !self@.contains_key(flag@) ==> r is None,
    {
        let key: String = flag.to_owned();
        let n = self.entries.len();
        let mut i: usize = n;
        while i > 0
            invariant
                0 <= i <= n,
                n == self.entries@.len(),
                key@ == flag@,
                forall|j: int| i <= j < n ==> (#[trigger] self.entries@[j]).flag@ != flag@,
            decreases i,
        {
            i = i - 1;
            if self.entries[i].flag.eq(&key) {
                proof {
                    lemma_map_of_found(self.entries@, flag@, i as int);
                }
                return Some(self.entries[i].role_id);
            }
        }
        proof {
            lemma_map_of_absent(self.entries@, flag@);
        }
        None
    }
}

} // verus!
