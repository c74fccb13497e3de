//! The services' settings, and the choice of database and queue provider
//! that they make.

use vstd::prelude::*;
use vstd::string::StringExecFns;
use crate::queue::{RabbitMessageQueueFactoryProps, SqsMessageQueueFactoryProps};

verus! {

/// Where a MariaDB database is and how to log in.
pub struct MariaDbRepoFactoryProps {
    pub host: String,
    pub port: u16,
    pub db_name: String,
    pub user: String,
    pub password: String,
}

/// Where a Postgres database is and how to log in.
pub struct PostgresRepoFactoryProps {
    pub host: String,
    pub port: u16,
    pub db_name: String,
    pub user: String,
    pub password: String,
}

/// The backend's settings.
pub struct AppProps {
    pub db_provider: Option<String>,
    pub queue_provider: Option<String>,
    pub mariadb: MariaDbRepoFactoryProps,
    pub postgres: PostgresRepoFactoryProps,
    pub rabbitmq: RabbitMessageQueueFactoryProps,
    pub sqs: SqsMessageQueueFactoryProps,
}

/// The control worker's settings.
pub struct ControlWorkerProps {
    pub db_provider: Option<String>,
    pub queue_provider: Option<String>,
    pub mariadb: MariaDbRepoFactoryProps,
    pub postgres: PostgresRepoFactoryProps,
    pub rabbitmq: RabbitMessageQueueFactoryProps,
    pub sqs: SqsMessageQueueFactoryProps,
}

/// The compute worker's settings.
pub struct ComputeWorkerProps {
    pub queue_provider: Option<String>,
    pub rabbitmq: RabbitMessageQueueFactoryProps,
    pub sqs: SqsMessageQueueFactoryProps,
}

/// The compute worker's choice of queue provider alone.
pub struct ComputeWorkerStateProps {
    pub queue_provider: Option<String>,
}

/// The database behind the repositories.
pub enum DbProvider {
    Postgres,
    MariaDb,
}

/// The broker behind the queues.
pub enum QueueProvider {
    Sqs,
    RabbitMq,
}

/// The database a setting names: Postgres when unset or "postgres", MariaDB
/// for "mariadb", and no known database for anything else.
pub open spec fn spec_db_provider(setting: Option<Seq<char>>) -> Option<DbProvider> {
    match setting {
        None => Some(DbProvider::Postgres),
        Some(s) => if s == "postgres"@ {
            Some(DbProvider::Postgres)
        } else if s == "mariadb"@ {
            Some(DbProvider::MariaDb)
        } else {
            None
        },
    }
}

/// The broker a setting names: SQS when unset or "sqs", RabbitMQ for
/// "rabbitmq", and no known broker for anything else.
pub open spec fn spec_queue_provider(setting: Option<Seq<char>>) -> Option<QueueProvider> {
    match setting {
        None => Some(QueueProvider::Sqs),
        Some(s) => if s == "sqs"@ {
            Some(QueueProvider::Sqs)
        } else if s == "rabbitmq"@ {
            Some(QueueProvider::RabbitMq)
        } else {
            None
        },
    }
}

/// The text of an optional setting.
pub open spec fn setting_view(setting: Option<&String>) -> Option<Seq<char>> {
    match setting {
        None => None,
        Some(s) => Some(s@),
    }
}

/// The database a `db-provider` setting names; `None` for an unknown name,
/// which the services refuse to start with.
pub fn db_provider(setting: Option<&String>) -> (p: Option<DbProvider>)
    ensures
        p == spec_db_provider(setting_view(setting)),
{
    match setting {
        None => Some(DbProvider::Postgres),
        Some(s) => {
            if *s == String::from_str("postgres") {
                Some(DbProvider::Postgres)
            } else if *s == String::from_str("mariadb") {
                Some(DbProvider::MariaDb)
            } else {
                None
            }
        },
    }
}

/// The broker a `queue-provider` setting names; `None` for an unknown name,
/// which the services refuse to start with.
pub fn queue_provider(setting: Option<&String>) -> (p: Option<QueueProvider>)
    ensures
        p == spec_queue_provider(setting_view(setting)),
{
    match setting {
        None => Some(QueueProvider::Sqs),
        Some(s) => {
            if *s == String::from_str("sqs") {
                Some(QueueProvider::Sqs)
            } else if *s == String::from_str("rabbitmq") {
                Some(QueueProvider::RabbitMq)
            } else {
                None
            }
        },
    }
}

/// Which database and broker each setting names: an unset setting picks
/// Postgres and SQS; exactly "postgres" and "mariadb" name the databases and
/// exactly "sqs" and "rabbitmq" the brokers; any other name picks none.
pub proof fn lemma_provider_names(s: Seq<char>)
    ensures
        spec_db_provider(None) == Some(DbProvider::Postgres),
        spec_db_provider(Some("postgres"@)) == Some(DbProvider::Postgres),
        spec_db_provider(Some("mariadb"@)) == Some(DbProvider::MariaDb),
        s != "postgres"@ && s != "mariadb"@ ==> spec_db_provider(Some(s)) is None,
        spec_queue_provider(None) == Some(QueueProvider::Sqs),
        spec_queue_provider(Some("sqs"@)) == Some(QueueProvider::Sqs),
        spec_queue_provider(Some("rabbitmq"@)) == Some(QueueProvider::RabbitMq),
        s != "sqs"@ && s != "rabbitmq"@ ==> spec_queue_provider(Some(s)) is None,
{
    reveal_strlit("postgres");
    reveal_strlit("mariadb");
    reveal_strlit("sqs");
    reveal_strlit("rabbitmq");
    assert("postgres"@ != "mariadb"@) by {
        assert("postgres"@[0] != "mariadb"@[0]);
    }
    assert("sqs"@ != "rabbitmq"@) by {
        assert("sqs"@.len() != "rabbitmq"@.len());
    }
}

} // verus!
