//! Keyboard layouts and the positional remapping of typed characters.
//!
//! A physical key is identified by the character it produces under the
//! Qwerty reference layout. Every layout is a table over the same key
//! positions, so remapping a character means finding its position in the
//! canonical table and reading the active layout's table at that position.

use vstd::prelude::*;

verus! {

/// Number of key positions in the canonical table.
pub const KEY_COUNT: usize = 96;

/// Position of the space bar in the unshifted half of the canonical table.
pub const SPACE_KEY: usize = 47;

/// Position of the space bar in the shifted half of the canonical table. It
/// repeats the character of `SPACE_KEY`, so a lookup never reaches it.
pub const SHIFTED_SPACE_KEY: usize = 95;

/// The canonical table: the Qwerty character of every key position, the
/// unshifted keys first, then the shifted ones.
pub const QWERTY_KEYS: &'static str =
    "`1234567890-=qwertyuiop[]\\asdfghjkl;'zxcvbnm,./ ~!@#$%^&*()_+QWERTYUIOP{}|ASDFGHJKL:\"ZXCVBNM<>? ";

/// The characters that the Dvorak layout defines, by key position.
pub const DVORAK_KEYS: &'static str =
    "`1234567890[]',.pyfgcrl/=\\aoeuidhtns-;qjkxbmwvz ~!@#$%^&*(){}\"<>PYFGCRL?+|AOEUIDHTNS_:QJKXBMWVZ ";

/// The characters that the Colemark layout defines, by key position.
pub const COLEMARK_KEYS: &'static str =
    "`1234567890-=qwfpbjluy;[]arstdhneio'zxcvmk,./ ~!@#$%^&*()_+QWFPBJLUY:{}ARSTDHNEIO\"ZXCVMK<>? ";

/// The characters that the Azerty layout defines, by key position.
pub const AZERTY_KEYS: &'static str =
    "`1234567890\u{b0}+azertyuiop^$qsdfghjklm\u{f9}%<wxcvbn,;:! *\u{b5}AZERTYUIOP\u{a8}\u{a3}QSDFGHJKLM%>WXCVBN?./\u{a7} ";

/// The selectable keyboard layouts.
#[derive(Clone, Copy, Debug, PartialEq, Eq, Structural)]
pub enum KeyboardType {
    Dvorak,
    Qwerty,
    Azerty,
    Colemark,
}

/// The canonical table as a sequence of characters.
pub open spec fn canonical_table() -> Seq<char> {
    QWERTY_KEYS@
}

/// The position at which a character is looked up: the first position of
/// the canonical table that holds it, if there is one.
pub open spec fn canonical_position(c: char) -> Option<int> {
    canonical_table().index_of_first(c)
}

impl KeyboardType {
    /// The characters that the layout itself defines, position by position.
    pub open spec fn defined_keys(self) -> Seq<char> {
        match self {
            KeyboardType::Dvorak => DVORAK_KEYS@,
            KeyboardType::Qwerty => QWERTY_KEYS@,
            KeyboardType::Azerty => AZERTY_KEYS@,
            KeyboardType::Colemark => COLEMARK_KEYS@,
        }
    }

    /// The layout's table over all key positions. A position that the layout
    /// does not define keeps its canonical character.
    pub open spec fn table(self) -> Seq<char> {
        let keys = self.defined_keys();
        keys + canonical_table().skip(keys.len() as int)
    }

    /// The character that the layout produces for the key whose canonical
    /// character is `c`; `c` itself where no key produces `c`.
    pub open spec fn spec_map_key(self, c: char) -> char {
        match canonical_position(c) {
            Some(i) => self.table()[i],
            None => c,
        }
    }

    /// The layout that follows this one in the selection cycle.
    pub open spec fn spec_next(self) -> KeyboardType {
        match self {
            KeyboardType::Dvorak => KeyboardType::Qwerty,
            KeyboardType::Qwerty => KeyboardType::Azerty,
            KeyboardType::Azerty => KeyboardType::Colemark,
            KeyboardType::Colemark => KeyboardType::Dvorak,
        }
    }

    /// The layout's display name.
    pub open spec fn spec_name(self) -> Seq<char> {
        match self {
            KeyboardType::Dvorak => "Dvorak"@,
            KeyboardType::Qwerty => "Qwerty"@,
            KeyboardType::Azerty => "Azerty"@,
            KeyboardType::Colemark => "Colemark"@,
        }
    }

    /// The string that holds the layout's defined keys.
    fn keys(&self) -> (keys: &'static str)
        ensures
            keys@ == self.defined_keys(),
    {
        match self {
            KeyboardType::Dvorak => DVORAK_KEYS,
            KeyboardType::Qwerty => QWERTY_KEYS,
            KeyboardType::Azerty => AZERTY_KEYS,
            KeyboardType::Colemark => COLEMARK_KEYS,
        }
    }

    /// Maps a typed character to the character that this layout produces at
    /// the same key position. A character that no key of the canonical table
    /// produces is returned unchanged.
    pub fn map_key(&self, c: char) -> (mapped: char)
        ensures
            mapped == self.spec_map_key(c),
            !canonical_table().contains(c) ==> mapped == c,
    {
        proof {
            canonical_table().index_of_first_ensures(c);
        }
        match key_position(c) {
            Some(i) => match self {
                KeyboardType::Qwerty => c,
                _ => {
                    let keys = self.keys();
                    if i < keys.unicode_len() {
                        keys.get_char(i)
                    } else {
                        c
                    }
                },
            },
            None => c,
        }
    }

    /// The layout that follows this one in the selection cycle:
    /// Dvorak, Qwerty, Azerty, Colemark, and Dvorak again.
    pub fn next(&self) -> (following: KeyboardType)
        ensures
            following == self.spec_next(),
    {
        match self {
            KeyboardType::Dvorak => KeyboardType::Qwerty,
            KeyboardType::Qwerty => KeyboardType::Azerty,
            KeyboardType::Azerty => KeyboardType::Colemark,
            KeyboardType::Colemark => KeyboardType::Dvorak,
        }
    }

    /// The layout's display name.
    pub fn name(&self) -> (name: &'static str)
        ensures
            name@ == self.spec_name(),
    {
        match self {
            KeyboardType::Dvorak => "Dvorak",
            KeyboardType::Qwerty => "Qwerty",
            KeyboardType::Azerty => "Azerty",
            KeyboardType::Colemark => "Colemark",
        }
    }
}

/// Finds the position at which a character is looked up in the canonical
/// table.
pub fn key_position(c: char) -> (position: Option<usize>)
    ensures
        match position {
            Some(i) => canonical_position(c) == Some(i as int),
            None => canonical_position(c) is None,
        },
        position matches Some(i) ==> i < KEY_COUNT && canonical_table()[i as int] == c,
        position is None <==> !canonical_table().contains(c),
{
    broadcast use vstd::string::group_string_axioms;

    proof {
        canonical_table().index_of_first_ensures(c);
        lemma_table_lengths();
    }
    let mut i: usize = 0;
    for key in it: QWERTY_KEYS.chars()
        invariant
            it.seq() == canonical_table(),
            canonical_table().len() == KEY_COUNT,
            i == it.index(),
            forall|j: int| 0 <= j < i ==> canonical_table()[j] != c,
    {
        if key == c {
            proof {
                canonical_table().index_of_first_ensures(c);
            }
            return Some(i);
        }
        i = i + 1;
    }
    None
}

/// What the four strings of defined keys hold, as far as the proofs of this
/// module go by it: their lengths, the one character that the canonical
/// table repeats, and the characters at the two positions of the space bar.
proof fn lemma_key_strings()
    ensures
        QWERTY_KEYS@.len() == KEY_COUNT,
        DVORAK_KEYS@.len() == KEY_COUNT,
        COLEMARK_KEYS@.len() == 92,
        AZERTY_KEYS@.len() == 86,
        forall|i: int, j: int|
            0 <= i < j < KEY_COUNT && QWERTY_KEYS@[i] == QWERTY_KEYS@[j] ==> i == SPACE_KEY && j
                == SHIFTED_SPACE_KEY,
        QWERTY_KEYS@[SPACE_KEY as int] == ' ',
        QWERTY_KEYS@[SHIFTED_SPACE_KEY as int] == ' ',
        DVORAK_KEYS@[SPACE_KEY as int] == ' ',
        DVORAK_KEYS@[SHIFTED_SPACE_KEY as int] == ' ',
        COLEMARK_KEYS@[SPACE_KEY as int] == '!',
        AZERTY_KEYS@[SPACE_KEY as int] == '!',
{
    reveal_strlit(
        "`1234567890-=qwertyuiop[]\\asdfghjkl;'zxcvbnm,./ ~!@#$%^&*()_+QWERTYUIOP{}|ASDFGHJKL:\"ZXCVBNM<>? ",
    );
    reveal_strlit(
        "`1234567890[]',.pyfgcrl/=\\aoeuidhtns-;qjkxbmwvz ~!@#$%^&*(){}\"<>PYFGCRL?+|AOEUIDHTNS_:QJKXBMWVZ ",
    );
    reveal_strlit(
        "`1234567890-=qwfpbjluy;[]arstdhneio'zxcvmk,./ ~!@#$%^&*()_+QWFPBJLUY:{}ARSTDHNEIO\"ZXCVMK<>? ",
    );
    reveal_strlit(
        "`1234567890\u{b0}+azertyuiop^$qsdfghjklm\u{f9}%<wxcvbn,;:! *\u{b5}AZERTYUIOP\u{a8}\u{a3}QSDFGHJKLM%>WXCVBN?./\u{a7} ",
    );
}

/// The lengths of the four strings of defined keys.
pub proof fn lemma_table_lengths()
    ensures
        QWERTY_KEYS@.len() == KEY_COUNT,
        DVORAK_KEYS@.len() == KEY_COUNT,
        COLEMARK_KEYS@.len() == 92,
        AZERTY_KEYS@.len() == 86,
{
    lemma_key_strings();
}

/// All four layout tables have the length of the canonical table, and the
/// Qwerty table is the canonical table.
pub proof fn lemma_tables_aligned(layout: KeyboardType)
    ensures
        layout.table().len() == KEY_COUNT,
        canonical_table().len() == KEY_COUNT,
        KeyboardType::Qwerty.table() == canonical_table(),
        forall|i: int|
            0 <= i < layout.defined_keys().len() ==> layout.table()[i] == layout.defined_keys()[i],
        forall|i: int|
            layout.defined_keys().len() <= i < KEY_COUNT ==> layout.table()[i]
                == canonical_table()[i],
{
    lemma_table_lengths();
    assert(KeyboardType::Qwerty.table() =~= canonical_table());
}

/// No character occurs twice in the canonical table, but for the space,
/// which stands at `SPACE_KEY` and again at `SHIFTED_SPACE_KEY`.
pub proof fn lemma_canonical_repeats()
    ensures
        forall|i: int, j: int|
            0 <= i < j < KEY_COUNT && canonical_table()[i] == canonical_table()[j] ==> i
                == SPACE_KEY && j == SHIFTED_SPACE_KEY,
        canonical_table()[SPACE_KEY as int] == ' ',
        canonical_table()[SHIFTED_SPACE_KEY as int] == ' ',
{
    lemma_key_strings();
}

/// Under the Qwerty layout every character maps to itself.
pub proof fn lemma_qwerty_is_identity(c: char)
    ensures
        KeyboardType::Qwerty.spec_map_key(c) == c,
{
    lemma_tables_aligned(KeyboardType::Qwerty);
    canonical_table().index_of_first_ensures(c);
}

/// A character that the canonical table does not hold maps to itself under
/// every layout.
pub proof fn lemma_unknown_character_passes(layout: KeyboardType, c: char)
    requires
        !canonical_table().contains(c),
    ensures
        layout.spec_map_key(c) == c,
{
    canonical_table().index_of_first_ensures(c);
}

/// Mapping the canonical character of a key position yields the layout's
/// character at that position, for every layout, Qwerty included.
///
/// The one position left out is the shifted space under Colemark and Azerty:
/// its canonical character is found at `SPACE_KEY` first, where those two
/// layouts hold another character than at `SHIFTED_SPACE_KEY`.
pub proof fn lemma_map_key_by_position(layout: KeyboardType, i: int)
    requires
        0 <= i < KEY_COUNT,
        i == SHIFTED_SPACE_KEY ==> layout == KeyboardType::Qwerty || layout
            == KeyboardType::Dvorak,
    ensures
        layout.spec_map_key(canonical_table()[i]) == layout.table()[i],
{
    let c = canonical_table()[i];
    lemma_tables_aligned(layout);
    lemma_canonical_repeats();
    canonical_table().index_of_first_ensures(c);
    let first = canonical_position(c)->0;
    if first != i {
        assert(first == SPACE_KEY && i == SHIFTED_SPACE_KEY);
        lemma_space_keys(layout);
    }
}

/// What each layout holds at the two positions of the space bar.
pub proof fn lemma_space_keys(layout: KeyboardType)
    ensures
        layout.table()[SHIFTED_SPACE_KEY as int] == ' ',
        layout.table()[SPACE_KEY as int] == (match layout {
            KeyboardType::Qwerty | KeyboardType::Dvorak => ' ',
            KeyboardType::Azerty | KeyboardType::Colemark => '!',
        }),
{
    lemma_key_strings();
}

} // verus!
