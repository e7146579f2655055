//! The tables of the Discord side: registered applications and their reports.
use vstd::prelude::*;
use crate::text::has_prefix;

verus! {

/// A registered application of the Discord side.
#[derive(Clone, Debug)]
pub struct AppTable {
    pub id: u64,
    pub name: String,
    pub id_user: u64,
    pub token_app: String,
    pub webhook_url: String,
}

/// A stored event report.
pub struct ReportsTable {
    pub id: u64,
    pub severity: u8,
    pub title: String,
    pub message: String,
    pub stacktrace: Option<String>,
    pub timestamp: i64,
    pub app_id: u64,
}

/// The statements that create the schema, in the order they run.
pub open spec fn schema_statements() -> Seq<Seq<char>> {
    seq![
        "\n        create table if not exists Apps(\n            id_app bigint not null auto_increment,\n            name_app varchar(255) not null,\n            id_user bigint not null,\n            token_app varchar(255) not null unique,\n            webhook_url_app varchar(255) not null,\n            primary key (id_app)\n        )\n    "@,
        "create index if not exists name_app_index on Apps(name_app)"@,
        "create index if not exists id_user_index on Apps(id_user)"@,
        "\n        create table if not exists Reports(\n            id_report bigint not null auto_increment,\n            severity_report int not null,\n            title_report varchar(255) not null,\n            message_report text not null,\n            stacktrace_report longtext,\n            timestamp_report bigint not null,\n            app_report bigint not null,\n            foreign key (app_report) references Apps(id_app),\n            primary key (id_report)\n        );\n    "@,
        "create index if not exists title_report_index on Reports(title_report)"@,
    ]
}

/// Only blanks come before position `k` of `s`.
pub open spec fn blank_before(s: Seq<char>, k: int) -> bool {
    forall|j: int| 0 <= j < k ==> s[j] == ' ' || s[j] == '\n'
}

/// A statement that creates a table or an index only when it does not
/// exist yet: after leading blanks it starts with `create table if not exists`
/// or `create index if not exists`.
pub open spec fn creates_only_if_missing(s: Seq<char>) -> bool {
    exists|k: int| 0 <= k <= s.len() && #[trigger] blank_before(s, k)
        && (has_prefix(s.skip(k), "create table if not exists "@) || has_prefix(s.skip(k), "create index if not exists "@))
}

/// Running the schema setup again changes nothing that is already there:
/// every statement it runs creates its table or index only if it is missing.
pub proof fn schema_setup_only_creates_what_is_missing()
    ensures
        forall|i: int| 0 <= i < schema_statements().len() ==> creates_only_if_missing(#[trigger] schema_statements()[i]),
{
    reveal_strlit("create table if not exists ");
    reveal_strlit("create index if not exists ");
    assert(creates_only_if_missing(schema_statements()[0])) by {
        reveal_strlit("\n        create table if not exists Apps(\n            id_app bigint not null auto_increment,\n            name_app varchar(255) not null,\n            id_user bigint not null,\n            token_app varchar(255) not null unique,\n            webhook_url_app varchar(255) not null,\n            primary key (id_app)\n        )\n    ");
        let s = schema_statements()[0];
        assert(blank_before(s, 9));
        assert(s.skip(9).take(27) =~= "create table if not exists "@);
    }
    assert(creates_only_if_missing(schema_statements()[1])) by {
        reveal_strlit("create index if not exists name_app_index on Apps(name_app)");
        let s = schema_statements()[1];
        assert(blank_before(s, 0));
        assert(s.skip(0).take(27) =~= "create index if not exists "@);
    }
    assert(creates_only_if_missing(schema_statements()[2])) by {
        reveal_strlit("create index if not exists id_user_index on Apps(id_user)");
        let s = schema_statements()[2];
        assert(blank_before(s, 0));
        assert(s.skip(0).take(27) =~= "create index if not exists "@);
    }
    assert(creates_only_if_missing(schema_statements()[3])) by {
        reveal_strlit("\n        create table if not exists Reports(\n            id_report bigint not null auto_increment,\n            severity_report int not null,\n            title_report varchar(255) not null,\n            message_report text not null,\n            stacktrace_report longtext,\n            timestamp_report bigint not null,\n            app_report bigint not null,\n            foreign key (app_report) references Apps(id_app),\n            primary key (id_report)\n        );\n    ");
        let s = schema_statements()[3];
        assert(blank_before(s, 9));
        assert(s.skip(9).take(27) =~= "create table if not exists "@);
    }
    assert(creates_only_if_missing(schema_statements()[4])) by {
        reveal_strlit("create index if not exists title_report_index on Reports(title_report)");
        let s = schema_statements()[4];
        assert(blank_before(s, 0));
        assert(s.skip(0).take(27) =~= "create index if not exists "@);
    }
    assert(schema_statements().len() == 5);
}

/// The number of schema statements.
pub const SCHEMA_LEN: usize = 5;

fn schema_statement(i: usize) -> (s: &'static str)
    requires
        i < SCHEMA_LEN,
    ensures
        s@ == schema_statements()[i as int],
{
    if i == 0 {
        "\n        create table if not exists Apps(\n            id_app bigint not null auto_increment,\n            name_app varchar(255) not null,\n            id_user bigint not null,\n            token_app varchar(255) not null unique,\n            webhook_url_app varchar(255) not null,\n            primary key (id_app)\n        )\n    "
    } else if i == 1 {
        "create index if not exists name_app_index on Apps(name_app)"
    } else if i == 2 {
        "create index if not exists id_user_index on Apps(id_user)"
    } else if i == 3 {
        "\n        create table if not exists Reports(\n            id_report bigint not null auto_increment,\n            severity_report int not null,\n            title_report varchar(255) not null,\n            message_report text not null,\n            stacktrace_report longtext,\n            timestamp_report bigint not null,\n            app_report bigint not null,\n            foreign key (app_report) references Apps(id_app),\n            primary key (id_report)\n        );\n    "
    } else {
        "create index if not exists title_report_index on Reports(title_report)"
    }
}

/// The next piece of work of the schema setup.
pub enum SetupAction {
    /// Open a connection to the database.
    Connect,
    /// Run this statement on it.
    Execute(&'static str),
    /// The schema is in place.
    Done,
}

/// The work that comes after `completed` pieces of work went through:
/// connecting, then each statement in order, then nothing.
pub open spec fn action_after(completed: nat, a: SetupAction) -> bool {
    if completed == 0 {
        a is Connect
    } else if completed <= SCHEMA_LEN {
        a matches SetupAction::Execute(s) && s@ == schema_statements()[completed - 1]
    } else {
        a is Done
    }
}

/// The progress of a schema setup: how many pieces of work went through.
pub struct CreateDatabase {
    completed: usize,
}

impl CreateDatabase {
    pub closed spec fn completed(self) -> nat {
        self.completed as nat
    }

    /// The progress never goes past the end of the setup.
    pub closed spec fn wf(self) -> bool {
        self.completed <= SCHEMA_LEN + 1
    }

    /// The next piece of work, given how the last one went: a failure ends
    /// the setup with that failure, as soon as it happens.
    pub fn advance<E>(&mut self, outcome: Result<(), E>) -> (r: Result<SetupAction, E>)
        requires
            old(self).wf(),
            old(self).completed() <= SCHEMA_LEN,
        ensures
            final(self).wf(),
            match outcome {
                Ok(_) => final(self).completed() == old(self).completed() + 1
                    && (r matches Ok(a) && action_after(final(self).completed(), a)),
                Err(e) => final(self).completed() == old(self).completed() && r == Err::<SetupAction, E>(e),
            },
    {
        match outcome {
            Err(e) => Err(e),
            Ok(()) => {
                self.completed = self.completed + 1;
                if self.completed <= SCHEMA_LEN {
                    Ok(SetupAction::Execute(schema_statement(self.completed - 1)))
                } else {
                    Ok(SetupAction::Done)
                }
            },
        }
    }
}

/// Starts the schema setup: the first piece of work is to connect.
pub fn create_database() -> (r: (CreateDatabase, SetupAction))
    ensures
        r.0.wf(),
        r.0.completed() == 0,
        action_after(0, r.1),
{
    (CreateDatabase { completed: 0 }, SetupAction::Connect)
}

} // verus!
