use vstd::prelude::*;
use crate::amount::Amount;
use crate::db::DatabaseVersion;
use crate::db::DbKeyPrefix;
use crate::keys::broken_fed_secret_phrase;
use crate::keys::fed_secret_phrase;
use crate::keys::secp_public_key;
use crate::keys::KeyPair;
use crate::module::DummyClientConfig;
use crate::module::DummyClientModule;

verus! {

/// A version of the federation's API.
#[derive(Clone, Copy, Debug, PartialEq, Eq, Structural)]
pub struct ApiVersion {
    pub major: u32,
    pub minor: u32,
}

/// A change of the stored layout that the module brings along.
#[derive(Clone, Copy, Debug, PartialEq, Eq, Structural)]
pub enum ClientMigration {
    /// Moves the balance record to its versioned key.
    MigrateToV1,
    /// Rewrites the leg states that are still pending into the states of
    /// today.
    MigrateState,
}

/// A value that a dump shows.
#[derive(Clone, Debug, PartialEq, Eq)]
pub enum DumpValue {
    Funds(Amount),
    Name(String),
}

/// A value that a dump shows, as a value.
pub enum DumpValueView {
    Funds(Amount),
    Name(Seq<char>),
}

impl View for DumpValue {
    type V = DumpValueView;

    open spec fn view(&self) -> DumpValueView {
        match self {
            DumpValue::Funds(amount) => DumpValueView::Funds(*amount),
            DumpValue::Name(name) => DumpValueView::Name(name@),
        }
    }
}

/// One line of a dump: what it is called, and the value.
#[derive(Clone, Debug, PartialEq, Eq)]
pub struct DumpEntry {
    pub label: String,
    pub value: DumpValue,
}

impl View for DumpEntry {
    type V = (Seq<char>, DumpValueView);

    open spec fn view(&self) -> Self::V {
        (self.label@, self.value@)
    }
}

/// Generates the client module.
#[derive(Clone, Copy, Debug, PartialEq, Eq, Structural)]
pub struct DummyClientInit;

impl DummyClientInit {
    /// The text of a display name, where there is one.
    pub open spec fn spec_text(name: &Option<String>) -> Option<Seq<char>> {
        match name {
            Some(text) => Some(text@),
            None => None,
        }
    }

    /// What a dump of the records `funds` and `name` shows when it is
    /// asked for the tables `prefix_names`: of the tables that are
    /// selected, each record that is there, the balance before the name.
    pub open spec fn spec_dump_database(
        funds: Option<Amount>,
        name: Option<Seq<char>>,
        prefix_names: Seq<Seq<char>>,
    ) -> Seq<(Seq<char>, DumpValueView)> {
        let funds_part = match funds {
            Some(amount) if DbKeyPrefix::ClientFunds.spec_selected(prefix_names) => seq![
                ("Dummy Funds"@, DumpValueView::Funds(amount)),
            ],
            _ => Seq::empty(),
        };
        let name_part = match name {
            Some(text) if DbKeyPrefix::ClientName.spec_selected(prefix_names) => seq![
                ("Dummy Name"@, DumpValueView::Name(text)),
            ],
            _ => Seq::empty(),
        };
        funds_part + name_part
    }

    /// A snapshot of the module's records for a reader: the balance as
    /// "Dummy Funds" and the display name as "Dummy Name", each where the
    /// record is there and its table is among `prefix_names`. No names
    /// select every table, and the case of a name does not matter. The
    /// lines come ordered by what they are called.
    pub fn dump_database(
        &self,
        funds: Option<Amount>,
        name: Option<String>,
        prefix_names: &Vec<String>,
    ) -> (items: Vec<DumpEntry>)
        ensures
            items@.map_values(|e: DumpEntry| e@) == Self::spec_dump_database(
                funds,
                Self::spec_text(&name),
                prefix_names@.map_values(|s: String| s@),
            ),
    {
        let ghost want = Self::spec_dump_database(
            funds,
            Self::spec_text(&name),
            prefix_names@.map_values(|s: String| s@),
        );
        let mut items: Vec<DumpEntry> = Vec::new();
        if DbKeyPrefix::ClientFunds.selected(prefix_names) {
            if let Some(amount) = funds {
                items.push(
                    DumpEntry { label: "Dummy Funds".to_owned(), value: DumpValue::Funds(amount) },
                );
            }
        }
        if DbKeyPrefix::ClientName.selected(prefix_names) {
            if let Some(text) = name {
                items.push(
                    DumpEntry { label: "Dummy Name".to_owned(), value: DumpValue::Name(text) },
                );
            }
        }
        assert(items@.map_values(|e: DumpEntry| e@) =~= want);
        items
    }

    /// The versions of the federation's API that the module speaks: 0.0
    /// alone.
    pub fn supported_api_versions(&self) -> (versions: Vec<ApiVersion>)
        ensures
            versions@ == seq![ApiVersion { major: 0, minor: 0 }],
    {
        let mut versions: Vec<ApiVersion> = Vec::new();
        versions.push(ApiVersion { major: 0, minor: 0 });
        versions
    }

    /// The module for the account of `key`, with the issuers that are given.
    pub fn init_with_issuers(
        &self,
        cfg: DummyClientConfig,
        key: KeyPair,
        fed_key: KeyPair,
        broken_fed_key: KeyPair,
    ) -> (module: DummyClientModule)
        ensures
            module == (DummyClientModule { cfg, key, fed_key, broken_fed_key }),
    {
        DummyClientModule { cfg, key, fed_key, broken_fed_key }
    }

    /// The module for the account of `key`, with the two issuers that every
    /// federation of this kind knows: the one made from its secret phrase,
    /// and the broken one.
    pub fn init(&self, cfg: DummyClientConfig, key: KeyPair) -> (module: DummyClientModule)
        ensures
            module.cfg == cfg,
            module.key == key,
            module.fed_key.secret() == fed_secret_phrase(),
            Some(module.fed_key.account().bytes@) == secp_public_key(fed_secret_phrase()),
            module.broken_fed_key.secret() == broken_fed_secret_phrase(),
            Some(module.broken_fed_key.account().bytes@) == secp_public_key(
                broken_fed_secret_phrase(),
            ),
    {
        self.init_with_issuers(cfg, key, KeyPair::fed_key_pair(), KeyPair::broken_fed_key_pair())
    }

    /// The changes of layout, each under the version that it starts from,
    /// in the order in which they apply.
    pub open spec fn spec_database_migrations() -> Seq<(DatabaseVersion, ClientMigration)> {
        seq![
            (DatabaseVersion(0), ClientMigration::MigrateToV1),
            (DatabaseVersion(1), ClientMigration::MigrateState),
        ]
    }

    /// The changes of layout, each under the version that it starts from,
    /// in the order in which they apply.
    pub fn get_database_migrations(&self) -> (migrations: Vec<(DatabaseVersion, ClientMigration)>)
        ensures
            migrations@ == Self::spec_database_migrations(),
    {
        let mut migrations: Vec<(DatabaseVersion, ClientMigration)> = Vec::new();
        migrations.push((DatabaseVersion(0), ClientMigration::MigrateToV1));
        migrations.push((DatabaseVersion(1), ClientMigration::MigrateState));
        assert(migrations@ =~= Self::spec_database_migrations());
        migrations
    }

    /// The changes that data of the version `stored` still needs: those
    /// that start from `stored` or later, in order. Each change leaves the
    /// data one version higher, so none is due a second time.
    pub fn pending_migrations(&self, stored: DatabaseVersion) -> (due: Vec<ClientMigration>)
        ensures
            due@ == Self::spec_database_migrations().filter(
                |m: (DatabaseVersion, ClientMigration)| m.0.0 >= stored.0,
            ).map_values(|m: (DatabaseVersion, ClientMigration)| m.1),
    {
        let migrations = self.get_database_migrations();
        let ghost all = Self::spec_database_migrations();
        let ghost keep = |m: (DatabaseVersion, ClientMigration)| m.0.0 >= stored.0;
        let ghost pick = |m: (DatabaseVersion, ClientMigration)| m.1;
        let mut due: Vec<ClientMigration> = Vec::new();
        let mut i: usize = 0;
        proof {
            reveal(Seq::filter);
            assert(all.subrange(0, 0).filter(keep) =~= Seq::empty());
        }
        while i < migrations.len()
            invariant
                i <= migrations@.len(),
                migrations@ == all,
                forall|m: (DatabaseVersion, ClientMigration)|
                    #[trigger] keep(m) == (m.0.0 >= stored.0),
                forall|m: (DatabaseVersion, ClientMigration)| #[trigger] pick(m) == m.1,
                due@ == all.subrange(0, i as int).filter(keep).map_values(pick),
            decreases migrations@.len() - i,
        {
            proof {
                let before = all.subrange(0, i as int);
                let upto = all.subrange(0, i + 1);
                assert(upto == before.push(all[i as int]));
                before.lemma_filter_push(all[i as int], keep);
                assert(before.filter(keep).push(all[i as int]).map_values(pick)
                    =~= before.filter(keep).map_values(pick).push(pick(all[i as int])));
            }
            if migrations[i].0.0 >= stored.0 {
                due.push(migrations[i].1);
            }
            i = i + 1;
        }
        assert(all.subrange(0, i as int) == all);
        due
    }
}

} // verus!
