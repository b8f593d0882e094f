//! What the mail transport is handed: the parsed addresses of a message, and
//! the account at the server that sends it.

use crate::profile::Profile;
use crate::profile::ProfileView;
use lettre::address::AddressError;
use lettre::message::Mailbox;
use vstd::prelude::*;

verus! {

/// `lettre::message::Mailbox`, an address with the name that goes with it.
#[verifier::external_type_specification]
#[verifier::external_body]
pub struct ExMailbox(Mailbox);

/// `lettre::address::AddressError`, why a text is no address.
#[verifier::external_type_specification]
#[verifier::external_body]
pub struct ExAddressError(AddressError);

/// The mailbox that `text` is the address of, where it is the address of
/// one.
pub uninterp spec fn mailbox_of(text: Seq<char>) -> Option<Mailbox>;

/// `str::parse` for `lettre::message::Mailbox`: the mailbox that the text
/// is the address of, or an error where it is none.
#[verifier::external_body]
fn parse_mailbox(text: &str) -> (r: Result<Mailbox, AddressError>)
    ensures
        r is Ok <==> mailbox_of(text@) is Some,
        r matches Ok(mailbox) ==> mailbox_of(text@) == Some(mailbox),
{
    text.parse()
}

/// Why a message cannot be handed to the mail transport.
#[derive(Clone, Copy, Debug, PartialEq, Eq, Structural)]
pub enum MailError {
    /// The profile has no `from`.
    MissingFrom,
    /// `from` is not the address of a mailbox.
    InvalidFrom,
    /// The profile has no `to`.
    MissingTo,
    /// The recipient at this place in `to` is not the address of a mailbox.
    InvalidTo(usize),
    /// The profile has no `user`.
    MissingUser,
    /// The profile has no `password`.
    MissingPassword,
    /// The profile has no `server`.
    MissingServer,
}

/// The parsed addresses of a message.
pub struct Addresses {
    /// The sender.
    pub from: Mailbox,
    /// The recipients, in the order of the profile.
    pub to: Vec<Mailbox>,
}

/// The account at the server that sends the message.
#[derive(Clone, Debug, PartialEq, Eq)]
pub struct Account {
    pub user: String,
    pub password: String,
    pub server: String,
    /// The port of the server, where it is not the usual one.
    pub port: Option<u16>,
}

/// The place in `to` of the first text that is not the address of a
/// mailbox, if there is one.
pub open spec fn first_invalid(to: Seq<Seq<char>>) -> Option<int> {
    if exists|i: int| 0 <= i < to.len() && mailbox_of(#[trigger] to[i]) is None {
        Some(
            choose|i: int|
                0 <= i < to.len() && mailbox_of(#[trigger] to[i]) is None && forall|j: int|
                    0 <= j < i ==> mailbox_of(#[trigger] to[j]) is Some,
        )
    } else {
        None
    }
}

/// The addresses of the message of `settings`: `from` and `to` must be set,
/// and each address must be that of a mailbox. The sender is looked at
/// first, then the recipients in order.
pub open spec fn addressed(settings: ProfileView) -> Result<(Mailbox, Seq<Mailbox>), MailError> {
    match settings.from {
        None => Err(MailError::MissingFrom),
        Some(from) => match mailbox_of(from) {
            None => Err(MailError::InvalidFrom),
            Some(sender) => match settings.to {
                None => Err(MailError::MissingTo),
                Some(to) => match first_invalid(to) {
                    Some(i) => Err(MailError::InvalidTo(i as usize)),
                    None => Ok((sender, to.map_values(|text: Seq<char>| mailbox_of(text).unwrap()))),
                },
            },
        },
    }
}

/// The value of the addresses or of the error in their place.
pub open spec fn addresses_view(r: Result<Addresses, MailError>) -> Result<
    (Mailbox, Seq<Mailbox>),
    MailError,
> {
    match r {
        Ok(addresses) => Ok((addresses.from, addresses.to@)),
        Err(error) => Err(error),
    }
}

/// Parses the sender and the recipients of the message of `settings`.
pub fn addresses(settings: &Profile) -> (r: Result<Addresses, MailError>)
    ensures
        addresses_view(r) == addressed(settings@),
{
    let from = match &settings.from {
        Some(from) => match parse_mailbox(from.as_str()) {
            Ok(from) => from,
            Err(_) => {
                return Err(MailError::InvalidFrom);
            },
        },
        None => {
            return Err(MailError::MissingFrom);
        },
    };
    let recipients = match &settings.to {
        Some(recipients) => recipients,
        None => {
            return Err(MailError::MissingTo);
        },
    };
    let ghost texts = recipients.deep_view();
    let mut to: Vec<Mailbox> = Vec::new();
    let mut i: usize = 0;
    while i < recipients.len()
        invariant
            i <= recipients.len(),
            settings@.from is Some,
            mailbox_of(settings@.from.unwrap()) == Some(from),
            settings@.to == Some(texts),
            texts == recipients.deep_view(),
            to@.len() == i,
            forall|j: int| 0 <= j < i ==> mailbox_of(#[trigger] texts[j]) == Some(to@[j]),
        decreases recipients.len() - i,
    {
        match parse_mailbox(recipients[i].as_str()) {
            Ok(mailbox) => {
                to.push(mailbox);
            },
            Err(_) => {
                proof {
                    lemma_first_invalid(texts, i as int);
                }
                return Err(MailError::InvalidTo(i));
            },
        }
        i += 1;
    }
    proof {
        assert(to@ =~= texts.map_values(|text: Seq<char>| mailbox_of(text).unwrap()));
    }
    Ok(Addresses { from, to })
}

/// What is to be done with a message whose addresses are parsed.
pub enum Dispatch {
    /// A dry run: the message is shown with these addresses and nothing is
    /// sent, so no account is asked for.
    Show(Addresses),
    /// The message is sent to these addresses.
    Send(Addresses),
}

/// The value of a dispatch, or of the error in its place: whether the
/// message is only shown, and its addresses.
pub open spec fn dispatch_view(r: Result<Dispatch, MailError>) -> Result<
    (bool, (Mailbox, Seq<Mailbox>)),
    MailError,
> {
    match r {
        Ok(Dispatch::Show(addresses)) => Ok((true, (addresses.from, addresses.to@))),
        Ok(Dispatch::Send(addresses)) => Ok((false, (addresses.from, addresses.to@))),
        Err(error) => Err(error),
    }
}

/// What is to be done with the message of `settings`: its addresses must
/// parse, in a dry run as in a real one; then a dry run shows the message
/// and a real run sends it.
pub open spec fn dispatched(settings: ProfileView, dry_run: bool) -> Result<
    (bool, (Mailbox, Seq<Mailbox>)),
    MailError,
> {
    match addressed(settings) {
        Ok(addresses) => Ok((dry_run, addresses)),
        Err(error) => Err(error),
    }
}

/// Decides what is done with the message of `settings`. The addresses are
/// parsed first. A dry run then shows the message, whatever the account is;
/// the account is asked for only when the message is sent.
pub fn dispatch(settings: &Profile, dry_run: bool) -> (r: Result<Dispatch, MailError>)
    ensures
        dispatch_view(r) == dispatched(settings@, dry_run),
{
    match addresses(settings) {
        Ok(parsed) => if dry_run {
            Ok(Dispatch::Show(parsed))
        } else {
            Ok(Dispatch::Send(parsed))
        },
        Err(error) => Err(error),
    }
}

/// A dry run needs no account: what is done with a message is the same for
/// two profiles with the same sender and recipients, whatever else they
/// hold.
pub proof fn lemma_dispatch_asks_for_addresses_alone(
    one: ProfileView,
    other: ProfileView,
    dry_run: bool,
)
    requires
        one.from == other.from,
        one.to == other.to,
    ensures
        dispatched(one, dry_run) == dispatched(other, dry_run),
{
}

/// `first_invalid` finds the place `i` where the text there is no address
/// and every text before it is one.
proof fn lemma_first_invalid(to: Seq<Seq<char>>, i: int)
    requires
        0 <= i < to.len(),
        mailbox_of(to[i]) is None,
        forall|j: int| 0 <= j < i ==> mailbox_of(#[trigger] to[j]) is Some,
    ensures
        first_invalid(to) == Some(i),
{
}

/// The account of `settings`: `user`, `password` and `server` must be set,
/// and are asked for in this order; `port` may be left out.
pub open spec fn accounted(settings: ProfileView) -> Result<
    (Seq<char>, Seq<char>, Seq<char>, Option<u16>),
    MailError,
> {
    if settings.user is None {
        Err(MailError::MissingUser)
    } else if settings.password is None {
        Err(MailError::MissingPassword)
    } else if settings.server is None {
        Err(MailError::MissingServer)
    } else {
        Ok(
            (
                settings.user.unwrap(),
                settings.password.unwrap(),
                settings.server.unwrap(),
                settings.port,
            ),
        )
    }
}

/// The value of an account or of the error in its place.
pub open spec fn account_view(r: Result<Account, MailError>) -> Result<
    (Seq<char>, Seq<char>, Seq<char>, Option<u16>),
    MailError,
> {
    match r {
        Ok(account) => Ok((account.user@, account.password@, account.server@, account.port)),
        Err(error) => Err(error),
    }
}

/// Takes the account at the sending server out of `settings`.
pub fn account(settings: Profile) -> (r: Result<Account, MailError>)
    ensures
        account_view(r) == accounted(settings@),
{
    let user = match settings.user {
        Some(user) => user,
        None => {
            return Err(MailError::MissingUser);
        },
    };
    let password = match settings.password {
        Some(password) => password,
        None => {
            return Err(MailError::MissingPassword);
        },
    };
    let server = match settings.server {
        Some(server) => server,
        None => {
            return Err(MailError::MissingServer);
        },
    };
    Ok(Account { user, password, server, port: settings.port })
}

} // verus!
