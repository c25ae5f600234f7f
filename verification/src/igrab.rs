//! The lines of an IGRAB header, laid out as the two versions of that tool did.
//!
//! IGRAB 0.24 wrote one `#define` per chunk and padded with tabs; IGRAB 0.4
//! wrote the members of an `enum` and padded with spaces. Names that are wider
//! than the column that the numbers stand in cannot be laid out.

use vstd::prelude::*;
use crate::join::{lemma_join5, lemma_join7};
use crate::text::{
    byte_len, decimal, optional_text, push_decimal, push_repeated, repeated, str_byte_len, str_eq,
};

verus! {

/// The width of a tab stop in IGRAB's output.
pub const IGRAB_TAB_WIDTH: usize = 8;

/// The version of IGRAB whose output is imitated.
#[derive(PartialEq, Eq, Clone, Copy, Debug, Structural)]
pub enum IGrabVersion {
    /// IGRAB 0.24.
    ZeroPointTwoFour,
    /// IGRAB 0.4.
    ZeroPointFour,
}

impl Default for IGrabVersion {
    /// IGRAB 0.4.
    fn default() -> (version: IGrabVersion)
        ensures
            version == IGrabVersion::ZeroPointFour,
    {
        IGrabVersion::ZeroPointFour
    }
}

impl IGrabVersion {
    /// The version number as it is written: `0.24` or `0.4`.
    pub open spec fn name(self) -> Seq<char> {
        match self {
            IGrabVersion::ZeroPointTwoFour => "0.24"@,
            IGrabVersion::ZeroPointFour => "0.4"@,
        }
    }

    /// The version number as it is written: `0.24` or `0.4`.
    pub fn as_str(&self) -> (name: &'static str)
        ensures
            name@ == self.name(),
    {
        match self {
            IGrabVersion::ZeroPointTwoFour => "0.24",
            IGrabVersion::ZeroPointFour => "0.4",
        }
    }

    /// The version number as it is written: `0.24` or `0.4`.
    pub fn to_string(&self) -> (name: String)
        ensures
            name@ == self.name(),
    {
        String::from_str(self.as_str())
    }

    /// The version that is written as `name`, if there is one.
    pub fn from_name(name: &str) -> (version: Option<IGrabVersion>)
        ensures
            version == if name@ == "0.24"@ {
                Some(IGrabVersion::ZeroPointTwoFour)
            } else if name@ == "0.4"@ {
                Some(IGrabVersion::ZeroPointFour)
            } else {
                None
            },
    {
        if str_eq(name, "0.24") {
            Some(IGrabVersion::ZeroPointTwoFour)
        } else if str_eq(name, "0.4") {
            Some(IGrabVersion::ZeroPointFour)
        } else {
            None
        }
    }
}

/// How the lines of a header are written.
#[derive(Clone, Copy, Debug, PartialEq, Eq, Structural)]
pub struct IGrabOptions {
    pub version: IGrabVersion,
    /// Whether a `_` stands between a chunk's name and its suffix.
    pub append_underscores: bool,
}

impl Default for IGrabOptions {
    /// IGRAB 0.4, without underscores.
    fn default() -> (options: IGrabOptions)
        ensures
            options == (IGrabOptions {
                version: IGrabVersion::ZeroPointFour,
                append_underscores: false,
            }),
    {
        IGrabOptions { version: IGrabVersion::ZeroPointFour, append_underscores: false }
    }
}

/// The column that IGRAB 0.24 puts the chunk numbers of a C header in.
pub const DEFINE_COLUMN: usize = 41;

/// The column that IGRAB 0.4 puts the chunk numbers of a C header in.
pub const ENUM_COLUMN: usize = 37;

/// The column that the `=` of an assembly header is aligned to.
pub const ASM_COLUMN: usize = 33;

impl IGrabOptions {
    /// The symbol of a chunk: its name, then its suffix if it has one, with a
    /// `_` between the two if the options ask for it.
    pub open spec fn symbol(self, name: Seq<char>, suffix: Option<Seq<char>>) -> Seq<char> {
        match suffix {
            Some(s) => if self.append_underscores {
                name + seq!['_'] + s
            } else {
                name + s
            },
            None => name,
        }
    }

    /// The number of bytes that a chunk's symbol takes up.
    pub open spec fn symbol_width(self, name: Seq<char>, suffix: Option<Seq<char>>) -> nat {
        match suffix {
            Some(s) => if self.append_underscores {
                byte_len(name) + 1 + byte_len(s)
            } else {
                byte_len(name) + byte_len(s)
            },
            None => byte_len(name),
        }
    }

    /// Whether the symbol is narrow enough for the column of a C header line.
    /// The first member of an `enum` is written with its value and needs no
    /// column.
    pub open spec fn chunk_line_fits(
        self,
        name: Seq<char>,
        suffix: Option<Seq<char>>,
        first: bool,
    ) -> bool {
        match self.version {
            IGrabVersion::ZeroPointTwoFour => 8 + self.symbol_width(name, suffix)
                <= DEFINE_COLUMN,
            IGrabVersion::ZeroPointFour => first || self.symbol_width(name, suffix) + 1
                <= ENUM_COLUMN,
        }
    }

    /// The line of a C header that gives a chunk its number.
    ///
    /// IGRAB 0.24: `#define`, the symbol, as many tabs as there are whole tab
    /// stops left before column 41, and the number. IGRAB 0.4: the first
    /// member of the `enum` is assigned the number; every other member is
    /// followed by spaces up to column 37 and by the number in a comment.
    pub open spec fn chunk_line(
        self,
        name: Seq<char>,
        suffix: Option<Seq<char>>,
        chunk_num: u32,
        first: bool,
    ) -> Seq<char> {
        let symbol = self.symbol(name, suffix);
        let width = self.symbol_width(name, suffix);
        match self.version {
            IGrabVersion::ZeroPointTwoFour => "#define "@ + symbol + repeated(
                '\t',
                ((DEFINE_COLUMN - (8 + width)) / IGRAB_TAB_WIDTH as int) as nat,
            ) + decimal(chunk_num as nat) + "\n"@,
            IGrabVersion::ZeroPointFour => if first {
                "\t\t"@ + symbol + " = "@ + decimal(chunk_num as nat) + ",\n"@
            } else {
                "\t\t"@ + symbol + ","@ + repeated(' ', (ENUM_COLUMN - (width + 1)) as nat)
                    + "// "@ + decimal(chunk_num as nat) + "\n"@
            },
        }
    }

    /// Whether the symbol is narrow enough for the column of an assembly line.
    pub open spec fn asm_chunk_line_fits(self, name: Seq<char>, suffix: Option<Seq<char>>) -> bool {
        self.symbol_width(name, suffix) <= ASM_COLUMN
    }

    /// The line of an assembly header that gives a chunk its number: the
    /// symbol, tabs up to the column of the `=`, and the number.
    pub open spec fn asm_chunk_line(
        self,
        name: Seq<char>,
        suffix: Option<Seq<char>>,
        chunk_num: u32,
    ) -> Seq<char> {
        self.symbol(name, suffix) + repeated(
            '\t',
            ((ASM_COLUMN - self.symbol_width(name, suffix) + IGRAB_TAB_WIDTH - 2)
                / IGRAB_TAB_WIDTH as int) as nat,
        ) + "\t=\t"@ + decimal(chunk_num as nat) + "\n"@
    }

    /// The width of a chunk's symbol, unless it is more than `limit`.
    fn symbol_width_within(&self, name: &str, suffix: Option<&str>, limit: usize) -> (width:
        Option<usize>)
        requires
            limit < 1000,
        ensures
            match width {
                Some(w) => w == self.symbol_width(name@, optional_text(suffix)) && w <= limit,
                None => self.symbol_width(name@, optional_text(suffix)) > limit,
            },
    {
        let name_len = str_byte_len(name);
        if name_len > limit {
            return None;
        }
        let mut width = name_len;
        match suffix {
            Some(s) => {
                let suffix_len = str_byte_len(s);
                if suffix_len > limit {
                    return None;
                }
                width = width + suffix_len;
                if self.append_underscores {
                    width = width + 1;
                }
            },
            None => {},
        }
        if width > limit {
            None
        } else {
            Some(width)
        }
    }

    /// Appends the symbol of a chunk.
    fn write_symbol(&self, f: &mut String, name: &str, suffix: Option<&str>)
        ensures
            final(f)@ == old(f)@ + self.symbol(name@, optional_text(suffix)),
    {
        f.append(name);
        match suffix {
            Some(s) => {
                if self.append_underscores {
                    f.append("_");
                    proof {
                        reveal_strlit("_");
                        assert("_"@ =~= seq!['_']);
                    }
                }
                f.append(s);
            },
            None => {},
        }
        assert(f@ =~= old(f)@ + self.symbol(name@, optional_text(suffix)));
    }

    /// Whether [`IGrabOptions::write_chunk_line`] can lay the chunk out.
    pub fn can_write_chunk_line(&self, chunk_name: &str, chunk_suffix: Option<&str>, first: bool)
        -> (fits: bool)
        ensures
            fits == self.chunk_line_fits(chunk_name@, optional_text(chunk_suffix), first),
    {
        match self.version {
            IGrabVersion::ZeroPointTwoFour => self.symbol_width_within(
                chunk_name,
                chunk_suffix,
                DEFINE_COLUMN - 8,
            ).is_some(),
            IGrabVersion::ZeroPointFour => first || self.symbol_width_within(
                chunk_name,
                chunk_suffix,
                ENUM_COLUMN - 1,
            ).is_some(),
        }
    }

    /// Appends the line of a C header that gives a chunk its number.
    pub fn write_chunk_line(
        &self,
        f: &mut String,
        chunk_name: &str,
        chunk_suffix: Option<&str>,
        chunk_num: u32,
        first: bool,
    )
        requires
            self.chunk_line_fits(chunk_name@, optional_text(chunk_suffix), first),
        ensures
            final(f)@ == old(f)@ + self.chunk_line(
                chunk_name@,
                optional_text(chunk_suffix),
                chunk_num,
                first,
            ),
    {
        let ghost symbol = self.symbol(chunk_name@, optional_text(chunk_suffix));
        let ghost number = decimal(chunk_num as nat);
        match self.version {
            IGrabVersion::ZeroPointTwoFour => {
                let width = self.symbol_width_within(chunk_name, chunk_suffix, DEFINE_COLUMN - 8);
                let num_chars = 8 + width.unwrap();
                let num_tabs = (DEFINE_COLUMN - num_chars) / IGRAB_TAB_WIDTH;
                f.append("#define ");
                self.write_symbol(f, chunk_name, chunk_suffix);
                push_repeated(f, '\t', num_tabs);
                push_decimal(f, chunk_num as u64);
                f.append("\n");
                proof {
                    lemma_join5(
                        old(f)@,
                        "#define "@,
                        symbol,
                        repeated('\t', num_tabs as nat),
                        number,
                        "\n"@,
                    );
                }
            },
            IGrabVersion::ZeroPointFour => {
                if first {
                    f.append("\t\t");
                    self.write_symbol(f, chunk_name, chunk_suffix);
                    f.append(" = ");
                    push_decimal(f, chunk_num as u64);
                    f.append(",\n");
                    proof {
                        lemma_join5(old(f)@, "\t\t"@, symbol, " = "@, number, ",\n"@);
                    }
                } else {
                    let width = self.symbol_width_within(chunk_name, chunk_suffix, ENUM_COLUMN - 1);
                    let num_chars = width.unwrap() + 1;
                    let num_spaces = ENUM_COLUMN - num_chars;
                    f.append("\t\t");
                    self.write_symbol(f, chunk_name, chunk_suffix);
                    f.append(",");
                    push_repeated(f, ' ', num_spaces);
                    f.append("// ");
                    push_decimal(f, chunk_num as u64);
                    f.append("\n");
                    proof {
                        lemma_join7(
                            old(f)@,
                            "\t\t"@,
                            symbol,
                            ","@,
                            repeated(' ', num_spaces as nat),
                            "// "@,
                            number,
                            "\n"@,
                        );
                    }
                }
            },
        }
    }

    /// Whether [`IGrabOptions::write_asm_chunk_line`] can lay the chunk out.
    pub fn can_write_asm_chunk_line(&self, chunk_name: &str, chunk_suffix: Option<&str>) -> (fits:
        bool)
        ensures
            fits == self.asm_chunk_line_fits(chunk_name@, optional_text(chunk_suffix)),
    {
        self.symbol_width_within(chunk_name, chunk_suffix, ASM_COLUMN).is_some()
    }

    /// Appends the line of an assembly header that gives a chunk its number.
    pub fn write_asm_chunk_line(
        &self,
        f: &mut String,
        chunk_name: &str,
        chunk_suffix: Option<&str>,
        chunk_num: u32,
    )
        requires
            self.asm_chunk_line_fits(chunk_name@, optional_text(chunk_suffix)),
        ensures
            final(f)@ == old(f)@ + self.asm_chunk_line(
                chunk_name@,
                optional_text(chunk_suffix),
                chunk_num,
            ),
    {
        let width = self.symbol_width_within(chunk_name, chunk_suffix, ASM_COLUMN);
        let num_chars = width.unwrap();
        let num_tabs = (ASM_COLUMN - num_chars + IGRAB_TAB_WIDTH - 2) / IGRAB_TAB_WIDTH;
        self.write_symbol(f, chunk_name, chunk_suffix);
        push_repeated(f, '\t', num_tabs);
        f.append("\t=\t");
        push_decimal(f, chunk_num as u64);
        f.append("\n");
        proof {
            lemma_join5(
                old(f)@,
                self.symbol(chunk_name@, optional_text(chunk_suffix)),
                repeated('\t', num_tabs as nat),
                "\t=\t"@,
                decimal(chunk_num as nat),
                "\n"@,
            );
        }
    }
}

} // verus!
