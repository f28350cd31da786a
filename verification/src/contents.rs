//! The debug index of the loaded program: what each address shows in the
//! memory pane, and where labels and addresses lie in the source.
//!
//! The index is built from an [`ObjectSummary`], the plain values that an
//! object file yields, and is patched as the program changes memory.

use vstd::prelude::*;
use vstd::string::StringExecFns;
use std::collections::HashMap;
use crate::text::push_char;

verus! {

broadcast use vstd::std_specs::hash::group_hash_axioms;

/// A stretch of source text, by line and column of its two ends.
#[derive(Debug, PartialEq, Eq, Structural, Clone, Copy)]
pub struct SourceRange {
    pub start_line: usize,
    pub start_col: usize,
    pub end_line: usize,
    pub end_col: usize,
}

/// A label of the program.
#[derive(Debug, Clone)]
pub struct SymbolEntry {
    pub label: String,
    /// The address the label stands for.
    pub addr: u16,
    /// Where the label is written in the source.
    pub range: SourceRange,
}

/// A source line that was assembled to an address.
#[derive(Debug, Clone)]
pub struct LineEntry {
    pub addr: u16,
    /// The line without the white space around it, where it can be cut out
    /// of the source.
    pub text: Option<String>,
    /// Where that text lies in the source.
    pub range: Option<SourceRange>,
}

/// What an object file yields for the debug index.
#[derive(Debug, Clone)]
pub struct ObjectSummary {
    /// Whether the file carries a symbol table together with its source.
    /// Without both, nothing of the file enters the index.
    pub has_source: bool,
    /// The labels, in the order the symbol table hands them out.
    pub symbols: Vec<SymbolEntry>,
    /// The assembled source lines, in the order of the source.
    pub lines: Vec<LineEntry>,
    /// Every address that the file defines, with its word if that is
    /// initialized, block by block in ascending order.
    pub words: Vec<(u16, Option<u16>)>,
}

/// Whether a word is a printable ASCII character: a space, or a visible
/// character below DEL.
pub open spec fn printable(value: u16) -> bool {
    0x20 <= value < 0x7F
}

/// Whether a word is a printable ASCII character.
pub fn is_printable(value: u16) -> (b: bool)
    ensures
        b == printable(value),
{
    0x20 <= value && value < 0x7F
}

/// The texts of an annotation table.
pub open spec fn lines_of(m: Map<u16, String>) -> Map<u16, Seq<char>> {
    m.map_values(|s: String| s@)
}

/// The annotation of a word that the program has written: the character it
/// stands for, else its disassembly behind a star, else nothing.
pub open spec fn mem_line_text(value: u16, disassembly: Option<Seq<char>>) -> Seq<char> {
    if printable(value) {
        seq![value as u8 as char]
    } else {
        match disassembly {
            Some(d) => seq!['*'] + d,
            None => Seq::empty(),
        }
    }
}

/// The table after the source lines have been entered: each line that has
/// text becomes the annotation of its address, later lines over earlier
/// ones.
pub open spec fn with_source_lines(m: Map<u16, Seq<char>>, lines: Seq<LineEntry>) -> Map<
    u16,
    Seq<char>,
>
    decreases lines.len(),
{
    if lines.len() == 0 {
        m
    } else {
        let before = with_source_lines(m, lines.drop_last());
        match lines.last().text {
            Some(t) => before.insert(lines.last().addr, t@),
            None => before,
        }
    }
}

/// The table after one word has been looked at: a printable character is
/// added in parentheses to the annotation of its address, or becomes the
/// annotation where there is none.
pub open spec fn with_word(m: Map<u16, Seq<char>>, addr: u16, value: Option<u16>) -> Map<
    u16,
    Seq<char>,
> {
    match value {
        Some(v) if printable(v) => {
            if m.contains_key(addr) {
                m.insert(addr, m[addr] + seq![' ', '('] + seq![v as u8 as char] + seq![')'])
            } else {
                m.insert(addr, seq![v as u8 as char])
            }
        },
        _ => m,
    }
}

/// The table after all words have been looked at, in order.
pub open spec fn with_words(m: Map<u16, Seq<char>>, words: Seq<(u16, Option<u16>)>) -> Map<
    u16,
    Seq<char>,
>
    decreases words.len(),
{
    if words.len() == 0 {
        m
    } else {
        with_word(with_words(m, words.drop_last()), words.last().0, words.last().1)
    }
}

/// The table after an object file has been entered.
pub open spec fn with_object(m: Map<u16, Seq<char>>, obj: ObjectSummary) -> Map<u16, Seq<char>> {
    if obj.has_source {
        with_words(with_source_lines(m, obj.lines@), obj.words@)
    } else {
        m
    }
}

/// Enters an object file into the annotation table: first its source lines,
/// then the printable characters among its words.
pub fn add_mem_lines_from_obj(mem_lines: &mut HashMap<u16, String>, obj: &ObjectSummary)
    ensures
        lines_of(final(mem_lines)@) == with_object(lines_of(old(mem_lines)@), *obj),
{
    if !obj.has_source {
        return;
    }
    let ghost start = lines_of(mem_lines@);
    let n = obj.lines.len();
    let mut i: usize = 0;
    while i < n
        invariant
            n == obj.lines@.len(),
            i <= n,
            lines_of(mem_lines@) == with_source_lines(start, obj.lines@.take(i as int)),
        decreases n - i,
    {
        assert(obj.lines@.take(i + 1).drop_last() =~= obj.lines@.take(i as int));
        let ghost before = mem_lines@;
        let entry = &obj.lines[i];
        match &entry.text {
            Some(t) => {
                mem_lines.insert(entry.addr, t.clone());
                assert(lines_of(mem_lines@) =~= lines_of(before).insert(entry.addr, t@));
            },
            None => {},
        }
        i += 1;
    }
    assert(obj.lines@.take(n as int) =~= obj.lines@);
    let ghost mid = lines_of(mem_lines@);
    let m = obj.words.len();
    let mut j: usize = 0;
    while j < m
        invariant
            m == obj.words@.len(),
            j <= m,
            lines_of(mem_lines@) == with_words(mid, obj.words@.take(j as int)),
        decreases m - j,
    {
        assert(obj.words@.take(j + 1).drop_last() =~= obj.words@.take(j as int));
        let ghost before = mem_lines@;
        let (addr, value) = obj.words[j];
        match value {
            Some(v) => {
                if is_printable(v) {
                    let c = v as u8 as char;
                    let mut label = match mem_lines.get(&addr) {
                        Some(orig) => {
                            proof {
                                reveal_strlit(" (");
                                assert(" ("@ =~= seq![' ', '(']);
                            }
                            let mut s = orig.clone();
                            s.append(" (");
                            push_char(&mut s, c);
                            push_char(&mut s, ')');
                            s
                        },
                        None => {
                            let mut s = String::new();
                            push_char(&mut s, c);
                            s
                        },
                    };
                    assert(label@ =~= with_word(lines_of(before), addr, value)[addr]);
                    mem_lines.insert(addr, label);
                    assert(lines_of(mem_lines@) =~= with_word(lines_of(before), addr, value));
                }
            },
            None => {},
        }
        j += 1;
    }
    assert(obj.words@.take(m as int) =~= obj.words@);
}

/// The table of labels by address after the given symbols have been
/// entered, later symbols over earlier ones at the same address.
pub open spec fn with_symbols(m: Map<u16, Seq<char>>, symbols: Seq<SymbolEntry>) -> Map<
    u16,
    Seq<char>,
>
    decreases symbols.len(),
{
    if symbols.len() == 0 {
        m
    } else {
        with_symbols(m, symbols.drop_last()).insert(symbols.last().addr, symbols.last().label@)
    }
}

/// The first symbol with the given label.
pub open spec fn find_label(symbols: Seq<SymbolEntry>, label: Seq<char>) -> Option<SymbolEntry>
    decreases symbols.len(),
{
    if symbols.len() == 0 {
        None
    } else if symbols.first().label@ == label {
        Some(symbols.first())
    } else {
        find_label(symbols.drop_first(), label)
    }
}

/// The first source line assembled to the given address.
pub open spec fn find_line(lines: Seq<LineEntry>, addr: u16) -> Option<LineEntry>
    decreases lines.len(),
{
    if lines.len() == 0 {
        None
    } else if lines.first().addr == addr {
        Some(lines.first())
    } else {
        find_line(lines.drop_first(), addr)
    }
}

/// The debug index: the summary of the loaded object file and the
/// annotation of each address.
pub struct ObjContents {
    pub obj_file: Option<ObjectSummary>,
    pub mem_lines: HashMap<u16, String>,
}

impl ObjContents {
    /// The annotations, by address.
    pub open spec fn lines(&self) -> Map<u16, Seq<char>> {
        lines_of(self.mem_lines@)
    }

    /// The summary that label and source queries are answered from: the
    /// loaded one, if it carries its source.
    pub open spec fn sym_source(&self) -> Option<ObjectSummary> {
        match self.obj_file {
            Some(obj) if obj.has_source => Some(obj),
            _ => None,
        }
    }

    /// An index with nothing loaded.
    pub fn new() -> (c: Self)
        ensures
            c.obj_file is None,
            c.lines() == Map::<u16, Seq<char>>::empty(),
    {
        let c = ObjContents { obj_file: None, mem_lines: HashMap::new() };
        assert(c.lines() =~= Map::<u16, Seq<char>>::empty());
        c
    }

    /// The annotation of `addr`; empty where there is none.
    pub fn get_mem_line(&self, addr: u16) -> (line: &str)
        ensures
            line@ == if self.lines().contains_key(addr) {
                self.lines()[addr]
            } else {
                Seq::<char>::empty()
            },
    {
        match self.mem_lines.get(&addr) {
            Some(s) => s.as_str(),
            None => {
                proof {
                    reveal_strlit("");
                }
                ""
            },
        }
    }

    /// Replaces the annotation of `addr` after the program has written
    /// `value` there. `disassembly` is the word read as an instruction, if it
    /// is one; it is only looked at where the word is no printable character.
    pub fn set_mem_line(&mut self, addr: u16, value: u16, disassembly: Option<&str>)
        ensures
            final(self).obj_file == old(self).obj_file,
            final(self).lines() == old(self).lines().insert(
                addr,
                mem_line_text(
                    value,
                    match disassembly {
                        Some(d) => Some(d@),
                        None => None,
                    },
                ),
            ),
    {
        let mut string = String::new();
        if is_printable(value) {
            push_char(&mut string, value as u8 as char);
        } else {
            match disassembly {
                Some(d) => {
                    push_char(&mut string, '*');
                    string.append(d);
                },
                None => {},
            }
        }
        let ghost before = self.mem_lines@;
        let ghost text = string@;
        self.mem_lines.insert(addr, string);
        assert(lines_of(self.mem_lines@) =~= lines_of(before).insert(addr, text));
    }

    /// Enters the operating system's image and then the program's into the
    /// annotations, and keeps the program's summary for later queries.
    pub fn load_contents(&mut self, os: &ObjectSummary, obj: ObjectSummary)
        ensures
            final(self).obj_file == Some(obj),
            final(self).lines() == with_object(with_object(old(self).lines(), *os), obj),
    {
        add_mem_lines_from_obj(&mut self.mem_lines, os);
        add_mem_lines_from_obj(&mut self.mem_lines, &obj);
        self.obj_file = Some(obj);
    }

    /// Forgets the program and all annotations.
    pub fn clear(&mut self)
        ensures
            final(self).obj_file is None,
            final(self).lines() == Map::<u16, Seq<char>>::empty(),
    {
        self.obj_file = None;
        self.mem_lines.clear();
        assert(self.lines() =~= Map::<u16, Seq<char>>::empty());
    }

    /// The summary that label and source queries are answered from.
    pub fn get_sym_source(&self) -> (r: Option<&ObjectSummary>)
        ensures
            r is Some <==> self.sym_source() is Some,
            r matches Some(obj) ==> Some(*obj) == self.sym_source(),
    {
        match &self.obj_file {
            Some(obj) => {
                if obj.has_source {
                    Some(obj)
                } else {
                    None
                }
            },
            None => None,
        }
    }

    /// The labels of the program, by address. Where several labels stand
    /// for one address, the last of them is given.
    pub fn get_curr_sym_table(&self) -> (table: HashMap<u16, String>)
        ensures
            lines_of(table@) == match self.sym_source() {
                Some(obj) => with_symbols(Map::empty(), obj.symbols@),
                None => Map::empty(),
            },
    {
        let mut table: HashMap<u16, String> = HashMap::new();
        assert(lines_of(table@) =~= Map::<u16, Seq<char>>::empty());
        match self.get_sym_source() {
            Some(obj) => {
                let n = obj.symbols.len();
                let mut i: usize = 0;
                while i < n
                    invariant
                        n == obj.symbols@.len(),
                        i <= n,
                        lines_of(table@) == with_symbols(Map::empty(), obj.symbols@.take(i as int)),
                    decreases n - i,
                {
                    assert(obj.symbols@.take(i + 1).drop_last() =~= obj.symbols@.take(i as int));
                    let ghost before = table@;
                    let entry = &obj.symbols[i];
                    table.insert(entry.addr, entry.label.clone());
                    assert(lines_of(table@) =~= lines_of(before).insert(entry.addr, entry.label@));
                    i += 1;
                }
                assert(obj.symbols@.take(n as int) =~= obj.symbols@);
            },
            None => {},
        }
        table
    }

    /// Where the given label is written in the source.
    pub fn get_label_source_range(&self, label: &str) -> (r: Option<SourceRange>)
        ensures
            r == match self.sym_source() {
                Some(obj) => match find_label(obj.symbols@, label@) {
                    Some(entry) => Some(entry.range),
                    None => None,
                },
                None => None,
            },
    {
        match self.get_sym_source() {
            None => None,
            Some(obj) => {
                let wanted = String::from_str(label);
                let n = obj.symbols.len();
                let mut i: usize = 0;
                assert(obj.symbols@.skip(0) =~= obj.symbols@);
                while i < n
                    invariant
                        n == obj.symbols@.len(),
                        i <= n,
                        self.sym_source() == Some(*obj),
                        wanted@ == label@,
                        find_label(obj.symbols@, label@) == find_label(
                            obj.symbols@.skip(i as int),
                            label@,
                        ),
                    decreases n - i,
                {
                    let entry = &obj.symbols[i];
                    assert(obj.symbols@.skip(i as int).first() == obj.symbols@[i as int]);
                    assert(obj.symbols@.skip(i as int).drop_first() =~= obj.symbols@.skip(i + 1));
                    if entry.label == wanted {
                        return Some(entry.range);
                    }
                    i += 1;
                }
                None
            },
        }
    }

    /// Where the source line that was assembled to `addr` lies in the
    /// source.
    pub fn get_addr_source_range(&self, addr: u16) -> (r: Option<SourceRange>)
        ensures
            r == match self.sym_source() {
                Some(obj) => match find_line(obj.lines@, addr) {
                    Some(entry) => entry.range,
                    None => None,
                },
                None => None,
            },
    {
        match self.get_sym_source() {
            None => None,
            Some(obj) => {
                let n = obj.lines.len();
                let mut i: usize = 0;
                assert(obj.lines@.skip(0) =~= obj.lines@);
                while i < n
                    invariant
                        n == obj.lines@.len(),
                        i <= n,
                        self.sym_source() == Some(*obj),
                        find_line(obj.lines@, addr) == find_line(obj.lines@.skip(i as int), addr),
                    decreases n - i,
                {
                    let entry = &obj.lines[i];
                    assert(obj.lines@.skip(i as int).first() == obj.lines@[i as int]);
                    assert(obj.lines@.skip(i as int).drop_first() =~= obj.lines@.skip(i + 1));
                    if entry.addr == addr {
                        return entry.range;
                    }
                    i += 1;
                }
                None
            },
        }
    }
}

} // verus!
