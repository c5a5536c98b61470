use serde::ser::SerializeStruct;
use sqlite_model::columns::{extract_columns, ColumnValueMap};
use sqlite_model::dynamic::{DynamicNumber, DynamicValue};
use sqlite_model::error::Error;
use sqlite_model::model::SqliteModel;
use sqlite_model::statement::{Fetch, Statement};
use sqlite_model::value::{BasicType, RealBits};
use sqlx::sqlite::{SqliteArguments, SqliteRow};
use sqlx::Row;

#[derive(Debug)]
struct TestModel {
    pub id: i64,
    pub name: String,
    pub passwd: Vec<u8>,
    pub created_at: i64,
}

impl serde::Serialize for TestModel {
    fn serialize<S: serde::Serializer>(&self, serializer: S) -> Result<S::Ok, S::Error> {
        let mut fields = serializer.serialize_struct("TestModel", 4)?;
        fields.serialize_field("id", &self.id)?;
        fields.serialize_field("name", &self.name)?;
        fields.serialize_field("passwd", &self.passwd)?;
        fields.serialize_field("created_at", &self.created_at)?;
        fields.end()
    }
}

fn to_dynamic(value: &serde_json::Value) -> DynamicValue {
    match value {
        serde_json::Value::Null => DynamicValue::Null,
        serde_json::Value::Bool(b) => DynamicValue::Bool(*b),
        serde_json::Value::Number(n) => DynamicValue::Number(DynamicNumber {
            integer: n.as_i64(),
            real: n.as_f64().map(|f| RealBits { bits: f.to_bits() }),
        }),
        serde_json::Value::String(s) => DynamicValue::String(s.clone()),
        serde_json::Value::Array(a) => DynamicValue::Array(a.iter().map(to_dynamic).collect()),
        serde_json::Value::Object(m) => {
            DynamicValue::Object(m.iter().map(|(k, v)| (k.clone(), to_dynamic(v))).collect())
        }
    }
}

impl SqliteModel for TestModel {
    fn table_name() -> String {
        "TestModel".to_string()
    }

    fn map_cols_to_vals(&self) -> Result<ColumnValueMap, Error> {
        let tree = to_dynamic(&serde_json::to_value(self).unwrap());
        extract_columns(&tree, &format!("{:?}", self))
    }
}

fn run<F: std::future::Future>(future: F) -> F::Output {
    tokio::runtime::Builder::new_current_thread().enable_all().build().unwrap().block_on(future)
}

fn bound<'q>(
    sql: &'q str,
    params: &[BasicType],
) -> sqlx::query::Query<'q, sqlx::Sqlite, SqliteArguments<'q>> {
    let mut query = sqlx::query(sql);
    for param in params {
        query = match param.clone() {
            BasicType::Null => query.bind(Option::<String>::None),
            BasicType::Integer(i) => query.bind(i),
            BasicType::Real(r) => query.bind(f64::from_bits(r.bits)),
            BasicType::Text(s) => query.bind(s),
            BasicType::Blob(b) => query.bind(b),
        };
    }
    query
}

fn entity(row: &SqliteRow) -> TestModel {
    TestModel {
        id: row.get("id"),
        name: row.get("name"),
        passwd: row.get("passwd"),
        created_at: row.get("created_at"),
    }
}

async fn fetch_one(pool: &sqlx::SqlitePool, statement: Statement) -> Result<TestModel, sqlx::Error> {
    assert_eq!(statement.fetch, Fetch::One);
    let row = bound(&statement.sql, &statement.params).fetch_one(pool).await?;
    Ok(entity(&row))
}

async fn fetch_all(
    pool: &sqlx::SqlitePool,
    statement: Statement,
) -> Result<Vec<TestModel>, sqlx::Error> {
    assert_eq!(statement.fetch, Fetch::All);
    let rows = bound(&statement.sql, &statement.params).fetch_all(pool).await?;
    Ok(rows.iter().map(entity).collect())
}

async fn all_rows(pool: &sqlx::SqlitePool) -> Vec<TestModel> {
    let rows = sqlx::query("select * from TestModel").fetch_all(pool).await.unwrap();
    rows.iter().map(entity).collect()
}

async fn create_table(pool: &sqlx::SqlitePool) -> Result<(), sqlx::Error> {
    let query_str = r"create table if not exists TestModel (
                    id integer primary key,
                    name text not null,
                    passwd blob not null,
                    created_at integer not null default (strftime('%s', 'now'))
                );"
    .to_string();

    sqlx::query(&query_str).execute(pool).await?;
    Ok(())
}

async fn memory_pool() -> sqlx::SqlitePool {
    sqlx::sqlite::SqlitePoolOptions::new().max_connections(1).connect(":memory:").await.unwrap()
}

#[test]
fn test_create_table() {
    run(async {
        let pool = memory_pool().await;
        create_table(&pool).await.unwrap();
    });
}

#[test]
fn test_insert() {
    run(async {
        let pool = memory_pool().await;
        create_table(&pool).await.unwrap();
        let test = TestModel { id: 18, name: "Test".to_string(), passwd: vec![1, 2, 3, 4], created_at: 1 };

        fetch_one(&pool, test.insert(&["id"]).unwrap()).await.unwrap();
        let res = all_rows(&pool).await.remove(0);

        assert_eq!(res.id, 1);
        assert_eq!(res.name, test.name);
        assert_eq!(res.passwd, test.passwd);
        assert_eq!(res.created_at, test.created_at);
    });
}

#[test]
fn test_upsert() {
    run(async {
        let pool = memory_pool().await;
        create_table(&pool).await.unwrap();
        let mut test =
            TestModel { id: 18, name: "Test".to_string(), passwd: vec![1, 2, 3, 4], created_at: 1 };

        fetch_one(&pool, test.upsert(&["id"], "id").unwrap()).await.unwrap();
        let res = all_rows(&pool).await.remove(0);

        assert_eq!(res.id, 1);
        assert_eq!(res.name, test.name);
        assert_eq!(res.passwd, test.passwd);
        assert_eq!(res.created_at, test.created_at);

        test = TestModel { id: 1, name: "test".to_string(), passwd: vec![4, 3, 2, 1, 0], created_at: 2 };
        fetch_one(&pool, test.upsert(&[], "id").unwrap()).await.unwrap();
        let res = all_rows(&pool).await;

        assert_eq!(res.len(), 1);
        let res = res.get(0).unwrap();
        assert_eq!(res.id, 1);
        assert_eq!(res.name, "test".to_string());
        assert_eq!(res.passwd, vec![4, 3, 2, 1, 0]);
        assert_eq!(res.created_at, 2);

        test = TestModel { id: 18, name: "another".to_string(), passwd: vec![9, 8, 7, 6], created_at: 3 };
        fetch_one(&pool, test.upsert(&[], "id").unwrap()).await.unwrap();
        let res = all_rows(&pool).await;

        assert_eq!(res.len(), 2);
        let (first, sec) = (res.get(0).unwrap(), res.get(1).unwrap());
        assert_eq!(first.id, 1);
        assert_eq!(first.name, "test".to_string());
        assert_eq!(first.passwd, vec![4, 3, 2, 1, 0]);
        assert_eq!(first.created_at, 2);
        assert_eq!(sec.id, 18);
        assert_eq!(sec.name, "another".to_string());
        assert_eq!(sec.passwd, vec![9, 8, 7, 6]);
        assert_eq!(sec.created_at, 3);
    });
}

#[test]
fn test_select_one() {
    run(async {
        let pool = memory_pool().await;
        create_table(&pool).await.unwrap();
        let test = TestModel { id: 18, name: "Test".to_string(), passwd: vec![1, 2, 3, 4], created_at: 1 };
        fetch_one(&pool, test.upsert(&["id"], "id").unwrap()).await.unwrap();

        let res = fetch_one(&pool, TestModel::select_one("id", 1.into())).await.unwrap();
        assert_eq!(res.id, 1);
        assert_eq!(res.name, test.name);
        assert_eq!(res.passwd, test.passwd);
        assert_eq!(res.created_at, test.created_at);
    });
}

#[test]
fn test_select_many() {
    run(async {
        let pool = memory_pool().await;
        create_table(&pool).await.unwrap();
        let test = TestModel { id: 18, name: "Test".to_string(), passwd: vec![1, 2, 3, 4], created_at: 1 };
        let test1 =
            TestModel { id: 18, name: "Test".to_string(), passwd: vec![4, 3, 2, 1, 0], created_at: 2 };
        fetch_one(&pool, test.upsert(&["id"], "id").unwrap()).await.unwrap();
        fetch_one(&pool, test1.upsert(&["id"], "id").unwrap()).await.unwrap();

        let res = fetch_all(&pool, TestModel::select_many("id", 1.into())).await.unwrap();
        assert_eq!(res.len(), 1);
        let res = fetch_all(&pool, TestModel::select_many("name", "Test".into())).await.unwrap();

        assert_eq!(res.len(), 2);
        let (res1, res2) = (res.get(0).unwrap(), res.get(1).unwrap());
        assert_eq!(res1.id, 1);
        assert_eq!(res1.name, test.name);
        assert_eq!(res1.passwd, test.passwd);
        assert_eq!(res1.created_at, test.created_at);
        assert_eq!(res2.id, 2);
        assert_eq!(res2.name, test1.name);
        assert_eq!(res2.passwd, test1.passwd);
        assert_eq!(res2.created_at, test1.created_at);
    });
}

#[test]
fn sqlite_test_delete() {
    run(async {
        let pool = memory_pool().await;
        create_table(&pool).await.unwrap();
        let test = TestModel {
            id: 18,
            name: "Test".to_string(),
            passwd: vec![1, 2, 3, 4, 5, 6, 7],
            created_at: 1,
        };
        let test1 =
            TestModel { id: 18, name: "Test".to_string(), passwd: vec![4, 3, 2, 1, 0], created_at: 2 };
        fetch_one(&pool, test.upsert(&["id"], "id").unwrap()).await.unwrap();
        fetch_one(&pool, test1.upsert(&["id"], "id").unwrap()).await.unwrap();

        let res = fetch_all(&pool, TestModel::delete("id", 1.into())).await.unwrap();
        assert_eq!(res.len(), 1);
        let res = res.get(0).unwrap();
        assert_eq!(res.id, 1);
        assert_eq!(res.name, test.name);
        assert_eq!(res.passwd, test.passwd);
        assert_eq!(res.created_at, test.created_at);

        let res = all_rows(&pool).await;

        assert_eq!(res.len(), 1);
        let res2 = res.get(0).unwrap();
        assert_eq!(res2.id, 2);
        assert_eq!(res2.name, test1.name);
        assert_eq!(res2.passwd, test1.passwd);
        assert_eq!(res2.created_at, test1.created_at);

        let test2 = TestModel {
            id: 18,
            name: "Test".to_string(),
            passwd: vec![4, 8, 9, 0, 5, 6, 1, 3],
            created_at: 3,
        };
        fetch_one(&pool, test2.upsert(&["id"], "id").unwrap()).await.unwrap();

        let res = fetch_all(&pool, TestModel::delete("name", "Test".into())).await.unwrap();
        assert_eq!(res.len(), 2);
        let (res1, res2) = (res.get(0).unwrap(), res.get(1).unwrap());
        assert_eq!(res1.id, 2);
        assert_eq!(res1.name, test1.name);
        assert_eq!(res1.passwd, test1.passwd);
        assert_eq!(res1.created_at, test1.created_at);
        assert_eq!(res2.id, 3);
        assert_eq!(res2.name, test2.name);
        assert_eq!(res2.passwd, test2.passwd);
        assert_eq!(res2.created_at, test2.created_at);

        let res = all_rows(&pool).await;
        assert_eq!(res.len(), 0);
    });
}
