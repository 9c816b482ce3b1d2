//! The schema guard: whether the store holds exactly the vault's two tables.

use vstd::prelude::*;

use crate::db;
use crate::db::table_names;
use crate::error::Error;

verus! {

/// The exact set of table names an initialized vault store has: `ACCOUNT`
/// and `USER`, nothing else.
pub open spec fn vault_tables() -> Set<Seq<char>> {
    set!["ACCOUNT"@, "USER"@]
}

/// The two table names differ (they do not even have the same length).
proof fn lemma_vault_table_names_distinct()
    ensures
        "ACCOUNT"@ != "USER"@,
{
    reveal_strlit("ACCOUNT");
    reveal_strlit("USER");
    assert("ACCOUNT"@.len() == 7);
    assert("USER"@.len() == 4);
}

/// The initialization guard: true exactly when the store's tables are
/// `ACCOUNT` and `USER` and nothing else, the state only initialization
/// leaves behind.  A store with extra tables is not a vault store.  A
/// successful check changes nothing.
pub fn exists_tables(conn: &mut rusqlite::Connection) -> (r: Result<bool, Error>)
    ensures
        r matches Ok(b) ==> db::store_unchanged(*old(conn), *final(conn)) && b == (table_names(
            *old(conn),
        ) == vault_tables()),
        r matches Err(e) ==> e matches Error::StorageError(_) && db::failed_step(
            *old(conn),
            *final(conn),
        ),
{
    let names = match db::list_tables_raw(conn) {
        Ok(v) => v,
        Err(m) => {
            return Err(Error::StorageError(m));
        },
    };
    proof {
        lemma_vault_table_names_distinct();
    }
    if names.len() != 2 {
        proof {
            if table_names(*old(conn)) == vault_tables() {
                let ghost ia = choose|i: int|
                    0 <= i < names@.len() && #[trigger] names@[i]@ == "ACCOUNT"@;
                let ghost iu = choose|i: int|
                    0 <= i < names@.len() && #[trigger] names@[i]@ == "USER"@;
                assert(table_names(*old(conn)).contains("ACCOUNT"@));
                assert(table_names(*old(conn)).contains("USER"@));
                assert(0 <= ia < names@.len() && names@[ia]@ == "ACCOUNT"@);
                assert(0 <= iu < names@.len() && names@[iu]@ == "USER"@);
                assert(ia != iu);
                if names@.len() > 2 {
                    let ghost k: int = if ia != 0 && iu != 0 {
                        0
                    } else if ia != 1 && iu != 1 {
                        1
                    } else {
                        2
                    };
                    assert(0 <= k < names@.len() && k != ia && k != iu);
                    assert(table_names(*old(conn)).contains(names@[k]@));
                    assert(names@[k]@ == "ACCOUNT"@ || names@[k]@ == "USER"@);
                    assert(false);
                }
            }
        }
        return Ok(false);
    }
    let account_name = "ACCOUNT".to_owned();
    let user_name = "USER".to_owned();
    let first_is_account = names[0] == account_name;
    let first_is_user = names[0] == user_name;
    let second_is_account = names[1] == account_name;
    let second_is_user = names[1] == user_name;
    let matched = (first_is_account && second_is_user) || (first_is_user && second_is_account);
    proof {
        if matched {
            assert forall|s: Seq<char>| table_names(*old(conn)).contains(s) implies vault_tables(
            ).contains(s) by {
                let i = choose|i: int| 0 <= i < names@.len() && #[trigger] names@[i]@ == s;
                assert(i == 0 || i == 1);
            }
            assert forall|s: Seq<char>| vault_tables().contains(s) implies table_names(
                *old(conn),
            ).contains(s) by {
                assert(s == "ACCOUNT"@ || s == "USER"@);
                assert(table_names(*old(conn)).contains(names@[0]@));
                assert(table_names(*old(conn)).contains(names@[1]@));
            }
            assert(table_names(*old(conn)) =~= vault_tables());
        } else {
            if table_names(*old(conn)) == vault_tables() {
                assert(table_names(*old(conn)).contains(names@[0]@));
                assert(table_names(*old(conn)).contains(names@[1]@));
                assert(names@[0]@ == "ACCOUNT"@ || names@[0]@ == "USER"@);
                assert(names@[1]@ == "ACCOUNT"@ || names@[1]@ == "USER"@);
                assert(names@[0]@ != names@[1]@);
                assert(false);
            }
        }
    }
    Ok(matched)
}

} // verus!
