use rusqlite_migration::{Migrations, M};
use sekshibot::store::migrations as scripts;

#[test]
fn migrations() {
    let migrations = Migrations::new(scripts().into_iter().map(M::up).collect());
    migrations.validate().unwrap();
}
