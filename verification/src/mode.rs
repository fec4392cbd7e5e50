//! Open-mode tokens and the access flags they stand for.
//!
//! A script names the access it wants with a short token. The vocabulary is
//! closed: nine tokens, one per [`OpenMode`]. Any other token is accepted and
//! asks for nothing, so the open call that follows is left to fail or succeed
//! with no flag set.

use vstd::prelude::*;

verus! {

/// The access that an open call asks of the operating system.
#[derive(Debug, Clone, Copy, PartialEq, Eq, Structural)]
pub struct ModeFlags {
    /// Bytes may be read.
    pub read: bool,
    /// Bytes may be written at the cursor.
    pub write: bool,
    /// Every write goes to the end of the file.
    pub append: bool,
    /// The file is created if it is missing.
    pub create: bool,
    /// The file must not exist yet; it is created.
    pub create_new: bool,
}

impl ModeFlags {
    /// No flag set: what an unrecognised token resolves to.
    pub open spec fn none_spec() -> ModeFlags {
        ModeFlags { read: false, write: false, append: false, create: false, create_new: false }
    }

    /// Returns the flags with nothing set.
    pub fn none() -> (flags: ModeFlags)
        ensures
            flags == Self::none_spec(),
    {
        ModeFlags { read: false, write: false, append: false, create: false, create_new: false }
    }

    /// The file is opened for output of some kind.
    pub open spec fn writes(self) -> bool {
        self.write || self.append
    }

    /// The open call may bring the file into being.
    pub open spec fn creates(self) -> bool {
        self.create || self.create_new
    }
}

/// One of the nine recognised ways to open a file.
#[derive(Debug, Clone, Copy, PartialEq, Eq, Structural)]
pub enum OpenMode {
    /// `r`
    ReadOnly,
    /// `r+`
    ReadWrite,
    /// `w`
    WriteCreate,
    /// `wx`
    WriteCreateExclusive,
    /// `w+`
    ReadWriteCreate,
    /// `a`
    AppendCreate,
    /// `ax`
    AppendCreateExclusive,
    /// `a+`
    ReadAppendCreate,
    /// `ax+`
    ReadAppendCreateExclusive,
}

impl OpenMode {
    /// The token that selects this mode.
    pub open spec fn token_spec(self) -> Seq<char> {
        match self {
            OpenMode::ReadOnly => seq!['r'],
            OpenMode::ReadWrite => seq!['r', '+'],
            OpenMode::WriteCreate => seq!['w'],
            OpenMode::WriteCreateExclusive => seq!['w', 'x'],
            OpenMode::ReadWriteCreate => seq!['w', '+'],
            OpenMode::AppendCreate => seq!['a'],
            OpenMode::AppendCreateExclusive => seq!['a', 'x'],
            OpenMode::ReadAppendCreate => seq!['a', '+'],
            OpenMode::ReadAppendCreateExclusive => seq!['a', 'x', '+'],
        }
    }

    /// The flags of this mode.
    pub open spec fn flags_spec(self) -> ModeFlags {
        match self {
            OpenMode::ReadOnly => ModeFlags {
                read: true,
                write: false,
                append: false,
                create: false,
                create_new: false,
            },
            OpenMode::ReadWrite => ModeFlags {
                read: true,
                write: true,
                append: false,
                create: false,
                create_new: false,
            },
            OpenMode::WriteCreate => ModeFlags {
                read: false,
                write: true,
                append: false,
                create: true,
                create_new: false,
            },
            OpenMode::WriteCreateExclusive => ModeFlags {
                read: false,
                write: true,
                append: false,
                create: false,
                create_new: true,
            },
            OpenMode::ReadWriteCreate => ModeFlags {
                read: true,
                write: true,
                append: false,
                create: true,
                create_new: false,
            },
            OpenMode::AppendCreate => ModeFlags {
                read: false,
                write: false,
                append: true,
                create: true,
                create_new: false,
            },
            OpenMode::AppendCreateExclusive => ModeFlags {
                read: false,
                write: false,
                append: true,
                create: false,
                create_new: true,
            },
            OpenMode::ReadAppendCreate => ModeFlags {
                read: true,
                write: false,
                append: true,
                create: true,
                create_new: false,
            },
            OpenMode::ReadAppendCreateExclusive => ModeFlags {
                read: true,
                write: false,
                append: true,
                create: false,
                create_new: true,
            },
        }
    }

    /// The mode that a token selects, if it is one of the nine.
    pub open spec fn parse_spec(token: Seq<char>) -> Option<OpenMode> {
        if token == OpenMode::ReadOnly.token_spec() {
            Some(OpenMode::ReadOnly)
        } else if token == OpenMode::ReadWrite.token_spec() {
            Some(OpenMode::ReadWrite)
        } else if token == OpenMode::WriteCreate.token_spec() {
            Some(OpenMode::WriteCreate)
        } else if token == OpenMode::WriteCreateExclusive.token_spec() {
            Some(OpenMode::WriteCreateExclusive)
        } else if token == OpenMode::ReadWriteCreate.token_spec() {
            Some(OpenMode::ReadWriteCreate)
        } else if token == OpenMode::AppendCreate.token_spec() {
            Some(OpenMode::AppendCreate)
        } else if token == OpenMode::AppendCreateExclusive.token_spec() {
            Some(OpenMode::AppendCreateExclusive)
        } else if token == OpenMode::ReadAppendCreate.token_spec() {
            Some(OpenMode::ReadAppendCreate)
        } else if token == OpenMode::ReadAppendCreateExclusive.token_spec() {
            Some(OpenMode::ReadAppendCreateExclusive)
        } else {
            None
        }
    }

    /// Returns the flags of this mode.
    pub fn flags(self) -> (flags: ModeFlags)
        ensures
            flags == self.flags_spec(),
    {
        let read = match self {
            OpenMode::ReadOnly
            | OpenMode::ReadWrite
            | OpenMode::ReadWriteCreate
            | OpenMode::ReadAppendCreate
            | OpenMode::ReadAppendCreateExclusive => true,
            _ => false,
        };
        let write = match self {
            OpenMode::ReadWrite
            | OpenMode::WriteCreate
            | OpenMode::WriteCreateExclusive
            | OpenMode::ReadWriteCreate => true,
            _ => false,
        };
        let append = match self {
            OpenMode::AppendCreate
            | OpenMode::AppendCreateExclusive
            | OpenMode::ReadAppendCreate
            | OpenMode::ReadAppendCreateExclusive => true,
            _ => false,
        };
        let create_new = match self {
            OpenMode::WriteCreateExclusive
            | OpenMode::AppendCreateExclusive
            | OpenMode::ReadAppendCreateExclusive => true,
            _ => false,
        };
        let create = match self {
            OpenMode::WriteCreate
            | OpenMode::ReadWriteCreate
            | OpenMode::AppendCreate
            | OpenMode::ReadAppendCreate => true,
            _ => false,
        };
        ModeFlags { read, write, append, create, create_new }
    }

    /// Decodes a token: `Some` for the nine recognised tokens, `None` for
    /// every other string.
    pub fn parse(token: &str) -> (mode: Option<OpenMode>)
        ensures
            mode == Self::parse_spec(token@),
    {
        let n = token.unicode_len();
        if n == 0 || n > 3 {
            return None;
        }
        let first = token.get_char(0);
        if n == 1 {
            if first == 'r' {
                assert(token@ =~= OpenMode::ReadOnly.token_spec());
                Some(OpenMode::ReadOnly)
            } else if first == 'w' {
                assert(token@ =~= OpenMode::WriteCreate.token_spec());
                Some(OpenMode::WriteCreate)
            } else if first == 'a' {
                assert(token@ =~= OpenMode::AppendCreate.token_spec());
                Some(OpenMode::AppendCreate)
            } else {
                None
            }
        } else if n == 2 {
            let second = token.get_char(1);
            if first == 'r' && second == '+' {
                assert(token@ =~= OpenMode::ReadWrite.token_spec());
                Some(OpenMode::ReadWrite)
            } else if first == 'w' && second == 'x' {
                assert(token@ =~= OpenMode::WriteCreateExclusive.token_spec());
                Some(OpenMode::WriteCreateExclusive)
            } else if first == 'w' && second == '+' {
                assert(token@ =~= OpenMode::ReadWriteCreate.token_spec());
                Some(OpenMode::ReadWriteCreate)
            } else if first == 'a' && second == 'x' {
                assert(token@ =~= OpenMode::AppendCreateExclusive.token_spec());
                Some(OpenMode::AppendCreateExclusive)
            } else if first == 'a' && second == '+' {
                assert(token@ =~= OpenMode::ReadAppendCreate.token_spec());
                Some(OpenMode::ReadAppendCreate)
            } else {
                None
            }
        } else {
            let second = token.get_char(1);
            let third = token.get_char(2);
            if first == 'a' && second == 'x' && third == '+' {
                assert(token@ =~= OpenMode::ReadAppendCreateExclusive.token_spec());
                Some(OpenMode::ReadAppendCreateExclusive)
            } else {
                None
            }
        }
    }

    /// The mode used when a script opens a file without naming one: read and
    /// write, creating the file if it is missing.
    pub fn default_mode() -> (mode: OpenMode)
        ensures
            mode == OpenMode::ReadWriteCreate,
    {
        OpenMode::ReadWriteCreate
    }
}

/// The flags that a token resolves to: those of its mode, or none at all for a
/// token outside the vocabulary.
pub open spec fn resolve_spec(token: Seq<char>) -> ModeFlags {
    match OpenMode::parse_spec(token) {
        Some(mode) => mode.flags_spec(),
        None => ModeFlags::none_spec(),
    }
}

/// Resolves a mode token to the flags for the open call. Never fails: a token
/// outside the vocabulary resolves to no flags.
pub fn resolve(token: &str) -> (flags: ModeFlags)
    ensures
        flags == resolve_spec(token@),
{
    match OpenMode::parse(token) {
        Some(mode) => mode.flags(),
        None => ModeFlags::none(),
    }
}

/// The length and the characters of each token, spelled out for the solver.
proof fn lemma_token_shapes()
    ensures
        forall|mode: OpenMode| 1 <= (#[trigger] mode.token_spec()).len() <= 3,
        forall|mode: OpenMode|
            (#[trigger] mode.token_spec())[0] == match mode {
                OpenMode::ReadOnly | OpenMode::ReadWrite => 'r',
                OpenMode::WriteCreate
                | OpenMode::WriteCreateExclusive
                | OpenMode::ReadWriteCreate => 'w',
                _ => 'a',
            },
        forall|mode: OpenMode|
            (#[trigger] mode.token_spec()).len() == match mode {
                OpenMode::ReadOnly | OpenMode::WriteCreate | OpenMode::AppendCreate => 1nat,
                OpenMode::ReadAppendCreateExclusive => 3nat,
                _ => 2nat,
            },
        forall|mode: OpenMode|
            (#[trigger] mode.token_spec()).len() >= 2 ==> mode.token_spec()[1] == match mode {
                OpenMode::WriteCreateExclusive
                | OpenMode::AppendCreateExclusive
                | OpenMode::ReadAppendCreateExclusive => 'x',
                _ => '+',
            },
{
}

/// The vocabulary, token by token: each of the nine tokens resolves to its own
/// combination of flags, and every other string resolves to no flags at all.
pub proof fn lemma_resolve_table(token: Seq<char>)
    ensures
        token == "r"@ ==> resolve_spec(token) == (ModeFlags {
            read: true,
            write: false,
            append: false,
            create: false,
            create_new: false,
        }),
        token == "r+"@ ==> resolve_spec(token) == (ModeFlags {
            read: true,
            write: true,
            append: false,
            create: false,
            create_new: false,
        }),
        token == "w"@ ==> resolve_spec(token) == (ModeFlags {
            read: false,
            write: true,
            append: false,
            create: true,
            create_new: false,
        }),
        token == "wx"@ ==> resolve_spec(token) == (ModeFlags {
            read: false,
            write: true,
            append: false,
            create: false,
            create_new: true,
        }),
        token == "w+"@ ==> resolve_spec(token) == (ModeFlags {
            read: true,
            write: true,
            append: false,
            create: true,
            create_new: false,
        }),
        token == "a"@ ==> resolve_spec(token) == (ModeFlags {
            read: false,
            write: false,
            append: true,
            create: true,
            create_new: false,
        }),
        token == "ax"@ ==> resolve_spec(token) == (ModeFlags {
            read: false,
            write: false,
            append: true,
            create: false,
            create_new: true,
        }),
        token == "a+"@ ==> resolve_spec(token) == (ModeFlags {
            read: true,
            write: false,
            append: true,
            create: true,
            create_new: false,
        }),
        token == "ax+"@ ==> resolve_spec(token) == (ModeFlags {
            read: true,
            write: false,
            append: true,
            create: false,
            create_new: true,
        }),
        (token != "r"@ && token != "r+"@ && token != "w"@ && token != "wx"@ && token != "w+"@
            && token != "a"@ && token != "ax"@ && token != "a+"@ && token != "ax+"@)
            ==> resolve_spec(token) == ModeFlags::none_spec(),
{
    lemma_token_shapes();
    reveal_strlit("r");
    reveal_strlit("r+");
    reveal_strlit("w");
    reveal_strlit("wx");
    reveal_strlit("w+");
    reveal_strlit("a");
    reveal_strlit("ax");
    reveal_strlit("a+");
    reveal_strlit("ax+");
    assert("r"@ =~= OpenMode::ReadOnly.token_spec());
    assert("r+"@ =~= OpenMode::ReadWrite.token_spec());
    assert("w"@ =~= OpenMode::WriteCreate.token_spec());
    assert("wx"@ =~= OpenMode::WriteCreateExclusive.token_spec());
    assert("w+"@ =~= OpenMode::ReadWriteCreate.token_spec());
    assert("a"@ =~= OpenMode::AppendCreate.token_spec());
    assert("ax"@ =~= OpenMode::AppendCreateExclusive.token_spec());
    assert("a+"@ =~= OpenMode::ReadAppendCreate.token_spec());
    assert("ax+"@ =~= OpenMode::ReadAppendCreateExclusive.token_spec());
}

/// Tokens and modes correspond one to one: the token of a mode selects that
/// mode again, and no two modes share a token.
pub proof fn lemma_token_selects_its_mode(mode: OpenMode, other: OpenMode)
    ensures
        OpenMode::parse_spec(mode.token_spec()) == Some(mode),
        mode.token_spec() == other.token_spec() ==> mode == other,
{
    lemma_token_shapes();
}

/// The flags of a mode are consistent: no mode asks for both plain and
/// exclusive creation, none both writes at the cursor and appends, every mode
/// reads or writes, and only a mode that writes or appends creates.
pub proof fn lemma_mode_flags_consistent(mode: OpenMode)
    ensures
        !(mode.flags_spec().create && mode.flags_spec().create_new),
        !(mode.flags_spec().write && mode.flags_spec().append),
        mode.flags_spec().read || mode.flags_spec().writes(),
        mode.flags_spec().creates() ==> mode.flags_spec().writes(),
{
}

} // verus!
