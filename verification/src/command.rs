//! The account prompt's command grammar: the commands themselves and the
//! parser that reads one from the words of a prompt line.

use vstd::prelude::*;
use vstd::string::*;
use crate::numeric::{all_dec_digits, dec_body, dec_val, parse_u64, ParseNumError};

verus! {

/// A parsed account prompt line.
#[derive(Debug)]
pub struct AccountCli {
    /// The command the line named.
    pub command: AccountCommands,
}

/// The commands of the account prompt.
#[derive(Debug)]
pub enum AccountCommands {
    /// Generate a new address.
    Address,
    /// Print the account balance.
    Balance,
    /// Request funds from the faucet to the latest address; `url` names
    /// the endpoint, the default one when absent.
    Faucet { url: Option<String> },
    /// List the account addresses.
    ListAddresses,
    /// List the account transactions.
    ListTransactions,
    /// Send an amount of base currency to a bech32 address.
    Send { address: String, amount: u64 },
    /// Send a native token to a bech32 address.
    SendNative { address: String, token_id: String, native_token_amount: String },
    /// Sync the account with the ledger.
    Sync,
    /// Exit from the account prompt.
    Exit,
}

/// Why a prompt line failed to parse.
#[derive(Clone, Copy, Debug, PartialEq, Eq, Structural)]
pub enum CommandParseError {
    /// The line holds no words.
    Empty,
    /// The first word names no command.
    Unknown,
    /// The command needs more arguments than the line gives.
    MissingArgument,
    /// The line gives more arguments than the command takes.
    TooManyArguments,
    /// The amount of a `send` command did not parse as a `u64`.
    BadAmount(ParseNumError),
}

/// True when `w` is the name of a command that takes no argument.
pub open spec fn no_arg_command(w: Seq<char>) -> bool {
    w == "address"@ || w == "balance"@ || w == "list-addresses"@ || w == "list-transactions"@ || w
        == "sync"@ || w == "exit"@
}

/// True when `w` names a command.
pub open spec fn known_command(w: Seq<char>) -> bool {
    no_arg_command(w) || w == "faucet"@ || w == "send"@ || w == "send-native"@
}

/// True when the amount text of a `send` command parses as a `u64`.
pub open spec fn send_amount_ok(s: Seq<char>) -> bool {
    dec_body(s).len() > 0 && all_dec_digits(dec_body(s)) && dec_val(dec_body(s)) <= u64::MAX
}

/// True when the words of `args` form a command.
pub open spec fn wellformed_command(args: Seq<String>) -> bool {
    args.len() >= 1 && ((no_arg_command(args[0]@) && args.len() == 1) || (args[0]@ == "faucet"@
        && args.len() <= 2) || (args[0]@ == "send"@ && args.len() == 3 && send_amount_ok(args[2]@))
        || (args[0]@ == "send-native"@ && args.len() == 4))
}

/// True when `cmd` is the command that the words of `args` name.
pub open spec fn parses_to(args: Seq<String>, cmd: AccountCommands) -> bool {
    args.len() >= 1 && match cmd {
        AccountCommands::Address => args[0]@ == "address"@ && args.len() == 1,
        AccountCommands::Balance => args[0]@ == "balance"@ && args.len() == 1,
        AccountCommands::Faucet { url } => args[0]@ == "faucet"@ && match url {
            None => args.len() == 1,
            Some(u) => args.len() == 2 && u@ == args[1]@,
        },
        AccountCommands::ListAddresses => args[0]@ == "list-addresses"@ && args.len() == 1,
        AccountCommands::ListTransactions => args[0]@ == "list-transactions"@ && args.len() == 1,
        AccountCommands::Send { address, amount } => args[0]@ == "send"@ && args.len() == 3
            && address@ == args[1]@ && send_amount_ok(args[2]@) && amount == dec_val(
            dec_body(args[2]@),
        ),
        AccountCommands::SendNative { address, token_id, native_token_amount } => args[0]@
            == "send-native"@ && args.len() == 4 && address@ == args[1]@ && token_id@ == args[2]@
            && native_token_amount@ == args[3]@,
        AccountCommands::Sync => args[0]@ == "sync"@ && args.len() == 1,
        AccountCommands::Exit => args[0]@ == "exit"@ && args.len() == 1,
    }
}

/// The number error the amount text of a `send` command earns, when it
/// earns one.
pub open spec fn spec_send_amount_error(s: Seq<char>) -> ParseNumError {
    if dec_body(s).len() == 0 {
        ParseNumError::Empty
    } else if !all_dec_digits(dec_body(s)) {
        ParseNumError::InvalidDigit
    } else {
        ParseNumError::Overflow
    }
}

/// The parse error the words of `args` earn, when they earn one.
pub open spec fn spec_parse_error(args: Seq<String>) -> CommandParseError
    recommends
        !wellformed_command(args),
{
    if args.len() == 0 {
        CommandParseError::Empty
    } else if !known_command(args[0]@) {
        CommandParseError::Unknown
    } else if args[0]@ == "send"@ {
        if args.len() < 3 {
            CommandParseError::MissingArgument
        } else if args.len() > 3 {
            CommandParseError::TooManyArguments
        } else {
            CommandParseError::BadAmount(spec_send_amount_error(args[2]@))
        }
    } else if args[0]@ == "send-native"@ {
        if args.len() < 4 {
            CommandParseError::MissingArgument
        } else {
            CommandParseError::TooManyArguments
        }
    } else {
        CommandParseError::TooManyArguments
    }
}

/// True when `s` reads as the word `w`.
fn word_eq(s: &String, w: &str) -> (r: bool)
    ensures
        r == (s@ == w@),
{
    let other = String::from_str(w);
    *s == other
}

/// Parse the words of one account prompt line into a command.
pub fn parse_account_command(args: &Vec<String>) -> (r: Result<AccountCli, CommandParseError>)
    ensures
        r is Ok <==> wellformed_command(args@),
        r is Ok ==> parses_to(args@, r->Ok_0.command),
        r is Err ==> r->Err_0 == spec_parse_error(args@),
{
    proof {
        reveal_strlit("address");
        reveal_strlit("balance");
        reveal_strlit("faucet");
        reveal_strlit("list-addresses");
        reveal_strlit("list-transactions");
        reveal_strlit("send");
        reveal_strlit("send-native");
        reveal_strlit("sync");
        reveal_strlit("exit");
        // The command names are pairwise distinct; the solver sees that
        // only from the lengths, or from a differing character where the
        // lengths agree.
        assert("address"@ != "faucet"@) by {
            assert("address"@.len() == 7);
            assert("faucet"@.len() == 6);
        }
        assert("address"@ != "send"@) by {
            assert("address"@.len() == 7);
            assert("send"@.len() == 4);
        }
        assert("address"@ != "send-native"@) by {
            assert("address"@.len() == 7);
            assert("send-native"@.len() == 11);
        }
        assert("balance"@ != "faucet"@) by {
            assert("balance"@.len() == 7);
            assert("faucet"@.len() == 6);
        }
        assert("balance"@ != "send"@) by {
            assert("balance"@.len() == 7);
            assert("send"@.len() == 4);
        }
        assert("balance"@ != "send-native"@) by {
            assert("balance"@.len() == 7);
            assert("send-native"@.len() == 11);
        }
        assert("list-addresses"@ != "faucet"@) by {
            assert("list-addresses"@.len() == 14);
            assert("faucet"@.len() == 6);
        }
        assert("list-addresses"@ != "send"@) by {
            assert("list-addresses"@.len() == 14);
            assert("send"@.len() == 4);
        }
        assert("list-addresses"@ != "send-native"@) by {
            assert("list-addresses"@.len() == 14);
            assert("send-native"@.len() == 11);
        }
        assert("list-transactions"@ != "faucet"@) by {
            assert("list-transactions"@.len() == 17);
            assert("faucet"@.len() == 6);
        }
        assert("list-transactions"@ != "send"@) by {
            assert("list-transactions"@.len() == 17);
            assert("send"@.len() == 4);
        }
        assert("list-transactions"@ != "send-native"@) by {
            assert("list-transactions"@.len() == 17);
            assert("send-native"@.len() == 11);
        }
        assert("sync"@ != "faucet"@) by {
            assert("sync"@.len() == 4);
            assert("faucet"@.len() == 6);
        }
        assert("sync"@ != "send"@) by {
            assert("sync"@[1] == 'y');
            assert("send"@[1] == 'e');
        }
        assert("sync"@ != "send-native"@) by {
            assert("sync"@.len() == 4);
            assert("send-native"@.len() == 11);
        }
        assert("exit"@ != "faucet"@) by {
            assert("exit"@.len() == 4);
            assert("faucet"@.len() == 6);
        }
        assert("exit"@ != "send"@) by {
            assert("exit"@[0] == 'e');
            assert("send"@[0] == 's');
        }
        assert("exit"@ != "send-native"@) by {
            assert("exit"@.len() == 4);
            assert("send-native"@.len() == 11);
        }
        assert("faucet"@ != "send"@) by {
            assert("faucet"@.len() == 6);
            assert("send"@.len() == 4);
        }
        assert("faucet"@ != "send-native"@) by {
            assert("faucet"@.len() == 6);
            assert("send-native"@.len() == 11);
        }
        assert("send"@ != "send-native"@) by {
            assert("send"@.len() == 4);
            assert("send-native"@.len() == 11);
        }
    }
    if args.len() == 0 {
        return Err(CommandParseError::Empty);
    }
    let head = &args[0];
    if word_eq(head, "address") {
        if args.len() == 1 {
            proof {
                assert(wellformed_command(args@));
            }
            Ok(AccountCli { command: AccountCommands::Address })
        } else {
            proof {
                assert(!wellformed_command(args@));
                assert(spec_parse_error(args@) == CommandParseError::TooManyArguments);
            }
            Err(CommandParseError::TooManyArguments)
        }
    } else if word_eq(head, "balance") {
        if args.len() == 1 {
            proof {
                assert(wellformed_command(args@));
            }
            Ok(AccountCli { command: AccountCommands::Balance })
        } else {
            proof {
                assert(!wellformed_command(args@));
                assert(spec_parse_error(args@) == CommandParseError::TooManyArguments);
            }
            Err(CommandParseError::TooManyArguments)
        }
    } else if word_eq(head, "list-addresses") {
        if args.len() == 1 {
            proof {
                assert(wellformed_command(args@));
            }
            Ok(AccountCli { command: AccountCommands::ListAddresses })
        } else {
            proof {
                assert(!wellformed_command(args@));
                assert(spec_parse_error(args@) == CommandParseError::TooManyArguments);
            }
            Err(CommandParseError::TooManyArguments)
        }
    } else if word_eq(head, "list-transactions") {
        if args.len() == 1 {
            proof {
                assert(wellformed_command(args@));
            }
            Ok(AccountCli { command: AccountCommands::ListTransactions })
        } else {
            proof {
                assert(!wellformed_command(args@));
                assert(spec_parse_error(args@) == CommandParseError::TooManyArguments);
            }
            Err(CommandParseError::TooManyArguments)
        }
    } else if word_eq(head, "sync") {
        if args.len() == 1 {
            proof {
                assert(wellformed_command(args@));
            }
            Ok(AccountCli { command: AccountCommands::Sync })
        } else {
            proof {
                assert(!wellformed_command(args@));
                assert(spec_parse_error(args@) == CommandParseError::TooManyArguments);
            }
            Err(CommandParseError::TooManyArguments)
        }
    } else if word_eq(head, "exit") {
        if args.len() == 1 {
            proof {
                assert(wellformed_command(args@));
            }
            Ok(AccountCli { command: AccountCommands::Exit })
        } else {
            proof {
                assert(!wellformed_command(args@));
                assert(spec_parse_error(args@) == CommandParseError::TooManyArguments);
            }
            Err(CommandParseError::TooManyArguments)
        }
    } else if word_eq(head, "faucet") {
        if args.len() == 1 {
            proof {
                assert(wellformed_command(args@));
            }
            Ok(AccountCli { command: AccountCommands::Faucet { url: None } })
        } else if args.len() == 2 {
            proof {
                assert(wellformed_command(args@));
            }
            Ok(AccountCli { command: AccountCommands::Faucet { url: Some(args[1].clone()) } })
        } else {
            proof {
                assert(!wellformed_command(args@));
                assert(spec_parse_error(args@) == CommandParseError::TooManyArguments);
            }
            Err(CommandParseError::TooManyArguments)
        }
    } else if word_eq(head, "send") {
        if args.len() < 3 {
            proof {
                assert(!wellformed_command(args@));
                assert(spec_parse_error(args@) == CommandParseError::MissingArgument);
            }
            Err(CommandParseError::MissingArgument)
        } else if args.len() > 3 {
            proof {
                assert(!wellformed_command(args@));
                assert(spec_parse_error(args@) == CommandParseError::TooManyArguments);
            }
            Err(CommandParseError::TooManyArguments)
        } else {
            match parse_u64(args[2].as_str()) {
                Ok(amount) => {
                    Ok(
                        AccountCli {
                            command: AccountCommands::Send { address: args[1].clone(), amount },
                        },
                    )
                },
                Err(e) => {
                    proof {
                        assert(!wellformed_command(args@));
                        assert(spec_parse_error(args@) == CommandParseError::BadAmount(e));
                    }
                    Err(CommandParseError::BadAmount(e))
                },
            }
        }
    } else if word_eq(head, "send-native") {
        if args.len() < 4 {
            proof {
                assert(!wellformed_command(args@));
                assert(spec_parse_error(args@) == CommandParseError::MissingArgument);
            }
            Err(CommandParseError::MissingArgument)
        } else if args.len() > 4 {
            proof {
                assert(!wellformed_command(args@));
                assert(spec_parse_error(args@) == CommandParseError::TooManyArguments);
            }
            Err(CommandParseError::TooManyArguments)
        } else {
            proof {
                assert(wellformed_command(args@));
            }
            Ok(
                AccountCli {
                    command: AccountCommands::SendNative {
                        address: args[1].clone(),
                        token_id: args[2].clone(),
                        native_token_amount: args[3].clone(),
                    },
                },
            )
        }
    } else {
        proof {
            assert(!wellformed_command(args@));
            assert(spec_parse_error(args@) == CommandParseError::Unknown);
        }
        Err(CommandParseError::Unknown)
    }
}

} // verus!
