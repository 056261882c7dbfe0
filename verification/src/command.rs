//! One invocation of the store: a command, what the surroundings say at that
//! moment, and the report of what was done. The decision is a function of
//! the collection, the command and the surroundings; reading the
//! surroundings is kept apart from it.

use vstd::prelude::*;
use crate::cli::{Cli, SyncOutcome, archival_of, lines_text, listing_text};
use crate::clock::{now_seconds, today_stamp};
use crate::ident::{fresh_id, is_random_uuid};
use crate::item::{Changes, text_of};
use crate::model::{
    Collection, Outcome, active_part, after_add, after_complete, after_delete, after_start,
    after_update,
};
use crate::order::derive_order;
use crate::reference::reference_target;
use crate::term::{layout_of, terminal_columns};

verus! {

/// What the user asks for.
#[derive(Debug, PartialEq, Eq)]
#[allow(inconsistent_fields)]
pub enum Command {
    /// Create an item.
    Add { title: String, description: Option<String>, priority: u8, in_progress: bool },
    /// Show the collection in derived order.
    List { verbose: bool },
    /// Change fields of the item that `id` refers to.
    Update {
        id: String,
        title: Option<String>,
        description: Option<String>,
        priority: Option<u8>,
        in_progress: Option<bool>,
        completed: Option<bool>,
        deleted: Option<bool>,
    },
    /// Start work on the item that `id` refers to.
    Start { id: String },
    /// Complete the item that `id` refers to.
    Complete { id: String },
    /// Delete the item that `id` refers to.
    Delete { id: String },
    /// Move the finished items to the archive of the day.
    Sync,
}

/// What the surroundings say when a command runs.
#[derive(Debug, PartialEq, Eq)]
pub struct Environment {
    /// The time, in seconds since the Unix epoch.
    pub now: i64,
    /// An identifier for a new item.
    pub fresh_id: u128,
    /// The stamp of the current day.
    pub today: String,
    /// The width of the terminal, if there is one.
    pub columns: Option<u16>,
}

/// What a command did.
#[derive(Debug, PartialEq, Eq)]
pub enum Report {
    /// An item was created under `id`.
    Added { id: u128 },
    /// The lines of the listing, or `None` if an item could not be shown.
    Listed { lines: Option<Vec<String>> },
    /// How the operation on one item ended.
    Changed { outcome: Outcome },
    /// What the archival asks of the caller.
    Synced { archival: SyncOutcome },
}

/// The update request that the fields of a command stand for.
pub open spec fn changes_in(
    title: Option<String>,
    description: Option<String>,
    priority: Option<u8>,
    in_progress: Option<bool>,
    completed: Option<bool>,
    deleted: Option<bool>,
) -> Changes {
    Changes {
        title: text_of(title),
        description: text_of(description),
        priority,
        in_progress,
        completed,
        deleted,
    }
}

/// The collection and the outcome after `op` was applied to the item that the
/// reference `text` names. An invalid reference changes nothing.
pub open spec fn on_reference(
    before: Collection,
    text: Seq<char>,
    op: spec_fn(u128) -> (Collection, Outcome),
) -> (Collection, Outcome) {
    match reference_target(before, text) {
        Some(target) => op(target),
        None => (before, Outcome::NotFound),
    }
}

/// Whether the collection `after` and the report `report` are what `command`
/// makes of the collection `before` in the surroundings `env`.
pub open spec fn executed(
    before: Collection,
    directory: Seq<char>,
    command: Command,
    env: Environment,
    after: Collection,
    report: Report,
) -> bool {
    match command {
        Command::Add { title, description, priority, in_progress } => {
            &&& after == after_add(
                before,
                env.fresh_id,
                title@,
                text_of(description),
                priority,
                in_progress,
                env.now,
            )
            &&& report == (Report::Added { id: env.fresh_id })
        },
        Command::List { verbose } => {
            &&& after == before
            &&& report matches Report::Listed { lines }
            &&& lines_text(lines) == listing_text(
                derive_order(before),
                verbose,
                layout_of(env.columns),
            )
        },
        Command::Update { id, title, description, priority, in_progress, completed, deleted } => {
            &&& report matches Report::Changed { outcome }
            &&& (after, outcome) == on_reference(
                before,
                id@,
                |target: u128|
                    after_update(
                        before,
                        target,
                        changes_in(title, description, priority, in_progress, completed, deleted),
                        env.now,
                    ),
            )
        },
        Command::Start { id } => {
            &&& report matches Report::Changed { outcome }
            &&& (after, outcome) == on_reference(
                before,
                id@,
                |target: u128| after_start(before, target, env.now),
            )
        },
        Command::Complete { id } => {
            &&& report matches Report::Changed { outcome }
            &&& (after, outcome) == on_reference(
                before,
                id@,
                |target: u128| after_complete(before, target, env.now),
            )
        },
        Command::Delete { id } => {
            &&& report matches Report::Changed { outcome }
            &&& (after, outcome) == on_reference(
                before,
                id@,
                |target: u128| after_delete(before, target, env.now),
            )
        },
        Command::Sync => {
            &&& after == active_part(before)
            &&& report matches Report::Synced { archival }
            &&& archival_of(before, directory, env.today@, archival)
        },
    }
}

impl Environment {
    /// Reads the surroundings: the clock, the random source and the terminal.
    /// What comes back is whatever they say at this moment. Of the time, the
    /// day and the width nothing is known beforehand; the identifier is that
    /// of a new random UUID.
    pub fn read() -> (env: Environment)
        ensures
            is_random_uuid(env.fresh_id),
    {
        Environment {
            now: now_seconds(),
            fresh_id: fresh_id(),
            today: today_stamp(),
            columns: terminal_columns(),
        }
    }
}

impl Cli {
    /// Carries out `command` on the collection, in the surroundings `env`.
    pub fn execute(&mut self, command: &Command, env: &Environment) -> (report: Report)
        ensures
            executed(
                old(self)@,
                old(self).directory(),
                *command,
                *env,
                final(self)@,
                report,
            ),
            final(self).directory() == old(self).directory(),
    {
        match command {
            Command::Add { title, description, priority, in_progress } => {
                self.add_todo(
                    env.fresh_id,
                    env.now,
                    title,
                    description.as_ref(),
                    priority,
                    in_progress,
                );
                Report::Added { id: env.fresh_id }
            },
            Command::List { verbose } => {
                let lines = self.list_todos(*verbose, env.columns);
                Report::Listed { lines }
            },
            Command::Update {
                id,
                title,
                description,
                priority,
                in_progress,
                completed,
                deleted,
            } => {
                let outcome = self.update_todo(
                    id.as_str(),
                    title.as_ref(),
                    description.as_ref(),
                    priority.as_ref(),
                    in_progress.as_ref(),
                    completed.as_ref(),
                    deleted.as_ref(),
                    env.now,
                );
                Report::Changed { outcome }
            },
            Command::Start { id } => {
                let outcome = self.start_todo(id.as_str(), env.now);
                Report::Changed { outcome }
            },
            Command::Complete { id } => {
                let outcome = self.complete_todo(id.as_str(), env.now);
                Report::Changed { outcome }
            },
            Command::Delete { id } => {
                let outcome = self.delete_todo(id.as_str(), env.now);
                Report::Changed { outcome }
            },
            Command::Sync => {
                let archival = self.sync(env.today.as_str());
                Report::Synced { archival }
            },
        }
    }

    /// Carries out `command` in the surroundings of this moment: it reads the
    /// clock, the random source and the terminal, and then does what
    /// [`Cli::execute`] does with what they said.
    pub fn run(&mut self, command: &Command) -> (report: Report)
        ensures
            exists|env: Environment| #[trigger]
                executed(
                    old(self)@,
                    old(self).directory(),
                    *command,
                    env,
                    final(self)@,
                    report,
                ),
            final(self).directory() == old(self).directory(),
    {
        let env = Environment::read();
        self.execute(command, &env)
    }
}

} // verus!
