//! The ticket-type catalog: what each type of ticket gives to the account
//! that is created with it.

use vstd::prelude::*;
use crate::errors::ContractError;
use crate::models::TicketType;
use crate::table::{distinct_keys, entries_map, Table};

verus! {

/// What a type of ticket gives; `NotFound` for an unknown type.
pub open spec fn ticket_lookup(
    tickets: Map<Seq<char>, TicketType>,
    ticket_id: Seq<char>,
) -> Result<TicketType, ContractError> {
    if tickets.contains_key(ticket_id) {
        Ok(tickets[ticket_id])
    } else {
        Err(ContractError::NotFound)
    }
}

/// The known types of tickets.
pub struct TicketTypeCatalog {
    types: Table<String, TicketType>,
}

impl TicketTypeCatalog {
    /// The representation is sound.
    pub closed spec fn wf(&self) -> bool {
        self.types.wf()
    }

    /// The known types, by their ids.
    pub closed spec fn as_map(&self) -> Map<Seq<char>, TicketType> {
        self.types@
    }

    /// A catalog without types.
    pub fn new() -> (catalog: Self)
        ensures
            catalog.wf(),
            catalog@ == Map::<Seq<char>, TicketType>::empty(),
    {
        TicketTypeCatalog { types: Table::new() }
    }

    /// The catalog that the list of entries stands for, where the first entry
    /// of an id is the one that counts.
    pub fn from_entries(entries: Vec<(String, TicketType)>) -> (catalog: Self)
        ensures
            catalog.wf(),
            catalog@ == entries_map(entries@),
    {
        TicketTypeCatalog { types: Table::from_entries(entries) }
    }

    /// The entries of the catalog, one for each type.
    pub fn into_entries(self) -> (entries: Vec<(String, TicketType)>)
        requires
            self.wf(),
        ensures
            distinct_keys(entries@),
            entries_map(entries@) == self@,
    {
        self.types.into_entries()
    }

    /// The role and the starting balances that a type of ticket gives.
    pub fn resolve(&self, ticket_id: &String) -> (ticket: Result<TicketType, ContractError>)
        requires
            self.wf(),
        ensures
            ticket == ticket_lookup(self@, ticket_id@),
    {
        match self.types.get(ticket_id) {
            Some(ticket) => Ok(*ticket),
            None => Err(ContractError::NotFound),
        }
    }

    /// Makes the type known, in place of the one of the same id, if any.
    pub fn define(&mut self, ticket_id: &String, ticket: TicketType)
        requires
            old(self).wf(),
        ensures
            final(self).wf(),
            final(self)@ == old(self)@.insert(ticket_id@, ticket),
    {
        self.types.insert(ticket_id.clone(), ticket);
    }
}

impl View for TicketTypeCatalog {
    type V = Map<Seq<char>, TicketType>;

    open spec fn view(&self) -> Map<Seq<char>, TicketType> {
        self.as_map()
    }
}

} // verus!
