//! Session-opening diagnostics: classifying a store "not a database" error
//! and recognizing a plain (unencrypted) database file by its header. The
//! file and store I/O around these decisions lives outside the library.

use vstd::prelude::*;
use vstd::string::StringExecFns;
use crate::text::{contains_sub, str_contains};

verus! {

/// The error text reports that the file is not a readable database.
pub open spec fn spec_notadb(e: Seq<char>) -> bool {
    contains_sub(e, "file is not a database"@) || contains_sub(e, "file is encrypted"@)
        || contains_sub(e, "not a database"@)
}

/// The message `map_notadb` returns for an error text, given whether the
/// file's header shows a plain (unencrypted) database.
pub open spec fn spec_map_notadb(e: Seq<char>, plain: bool) -> Seq<char> {
    if spec_notadb(e) {
        if plain {
            "This file looks like a regular (unencrypted) SQLite database — not an SQLCipher-encrypted DB."@
        } else {
            "Incorrect password for this encrypted database."@
        }
    } else {
        "Open failed: "@ + e
    }
}

/// Maps a store "cannot open" error text to a user-facing message:
/// a not-a-database error means either a plain database file (when the
/// header says so) or a wrong password; anything else is reported verbatim.
pub fn map_notadb(err_text: &str, looks_plain_sqlite: bool) -> (r: String)
    ensures
        r@ == spec_map_notadb(err_text@, looks_plain_sqlite),
{
    let notadb = str_contains(err_text, "file is not a database") || str_contains(
        err_text,
        "file is encrypted",
    ) || str_contains(err_text, "not a database");
    if notadb {
        if looks_plain_sqlite {
            String::from_str(
                "This file looks like a regular (unencrypted) SQLite database — not an SQLCipher-encrypted DB.",
            )
        } else {
            String::from_str("Incorrect password for this encrypted database.")
        }
    } else {
        let mut s = String::from_str("Open failed: ");
        s.append(err_text);
        s
    }
}

/// The sixteen header bytes of a plain (unencrypted) database file.
pub open spec fn spec_sqlite_magic() -> Seq<u8> {
    seq![
        0x53u8, 0x51u8, 0x4cu8, 0x69u8, 0x74u8, 0x65u8, 0x20u8, 0x66u8, 0x6fu8, 0x72u8, 0x6du8,
        0x61u8, 0x74u8, 0x20u8, 0x33u8, 0x00u8,
    ]
}

/// Whether the first bytes of a file are the plain database header.
pub fn is_sqlite_header(hdr: &Vec<u8>) -> (r: bool)
    ensures
        r == (hdr@ == spec_sqlite_magic()),
{
    let magic: Vec<u8> = vec![
        0x53u8, 0x51u8, 0x4cu8, 0x69u8, 0x74u8, 0x65u8, 0x20u8, 0x66u8, 0x6fu8, 0x72u8, 0x6du8,
        0x61u8, 0x74u8, 0x20u8, 0x33u8, 0x00u8,
    ];
    proof {
        assert(magic@ =~= spec_sqlite_magic());
    }
    if hdr.len() != magic.len() {
        return false;
    }
    let mut i: usize = 0;
    while i < magic.len()
        invariant
            0 <= i <= magic@.len(),
            hdr@.len() == magic@.len(),
            magic@ == spec_sqlite_magic(),
            forall|j: int| 0 <= j < i ==> hdr@[j] == magic@[j],
        decreases magic@.len() - i,
    {
        if hdr[i] != magic[i] {
            return false;
        }
        i = i + 1;
    }
    proof {
        assert(hdr@ =~= spec_sqlite_magic());
    }
    true
}

} // verus!
