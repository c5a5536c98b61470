use sqlite_model::columns::ColumnValueMap;
use sqlite_model::error::Error;
use sqlite_model::model::{AxumModel, SqliteModel};
use sqlite_model::statement::{Fetch, Statement};
use sqlite_model::value::BasicType;
use sqlx::sqlite::{SqliteArguments, SqliteRow};
use sqlx::Row;

struct TestModel {
    pub id: i64,
    pub name: String,
    pub passwd: String,
    pub created_at: i64,
}

impl SqliteModel for TestModel {
    fn table_name() -> String {
        "TestModel".to_string()
    }

    fn map_cols_to_vals(&self) -> Result<ColumnValueMap, Error> {
        let mut map = ColumnValueMap::new();
        map.insert("id".to_string(), BasicType::Integer(self.id))?;
        map.insert("name".to_string(), BasicType::Text(self.name.to_string()))?;
        map.insert("passwd".to_string(), BasicType::Text(self.passwd.to_string()))?;
        map.insert("created_at".to_string(), BasicType::Integer(self.created_at))?;
        Ok(map)
    }
}

impl AxumModel for TestModel {
    fn primary_col() -> String {
        "id".to_string()
    }
}

fn run<F: std::future::Future>(future: F) -> F::Output {
    tokio::runtime::Builder::new_current_thread().enable_all().build().unwrap().block_on(future)
}

fn bound<'q>(
    sql: &'q str,
    params: &[BasicType],
) -> sqlx::query::Query<'q, sqlx::Sqlite, SqliteArguments<'q>> {
    let mut query = sqlx::query(sql);
    for param in params {
        query = match param.clone() {
            BasicType::Null => query.bind(Option::<String>::None),
            BasicType::Integer(i) => query.bind(i),
            BasicType::Real(r) => query.bind(f64::from_bits(r.bits)),
            BasicType::Text(s) => query.bind(s),
            BasicType::Blob(b) => query.bind(b),
        };
    }
    query
}

fn entity(row: &SqliteRow) -> TestModel {
    TestModel {
        id: row.get("id"),
        name: row.get("name"),
        passwd: row.get("passwd"),
        created_at: row.get("created_at"),
    }
}

fn failure(error: sqlx::Error) -> Error {
    match error {
        sqlx::Error::RowNotFound => Error::RowNotFound,
        other => Error::Store(format!("{:?}", other)),
    }
}

async fn fetch_one(pool: &sqlx::SqlitePool, statement: Statement) -> Result<TestModel, Error> {
    assert_eq!(statement.fetch, Fetch::One);
    let row = bound(&statement.sql, &statement.params).fetch_one(pool).await.map_err(failure)?;
    Ok(entity(&row))
}

async fn fetch_all(pool: &sqlx::SqlitePool, statement: Statement) -> Result<Vec<TestModel>, Error> {
    assert_eq!(statement.fetch, Fetch::All);
    let rows = bound(&statement.sql, &statement.params).fetch_all(pool).await.map_err(failure)?;
    Ok(rows.iter().map(entity).collect())
}

async fn all_rows(pool: &sqlx::SqlitePool) -> Vec<TestModel> {
    let rows = sqlx::query("select * from TestModel").fetch_all(pool).await.unwrap();
    rows.iter().map(entity).collect()
}

async fn create_table(pool: &sqlx::SqlitePool) -> Result<(), sqlx::Error> {
    let query_str = format!(
        r"create table if not exists {} (
                    id integer primary key,
                    name text not null,
                    passwd text not null,
                    created_at integer not null default (strftime('%s', 'now'))
                );",
        TestModel::table_name()
    );

    sqlx::query(&query_str).execute(pool).await?;
    Ok(())
}

async fn memory_pool() -> sqlx::SqlitePool {
    sqlx::sqlite::SqlitePoolOptions::new().max_connections(1).connect(":memory:").await.unwrap()
}

#[test]
fn test_post() {
    run(async {
        let pool = memory_pool().await;
        create_table(&pool).await.unwrap();
        let test = TestModel {
            id: 18,
            name: "Test".to_string(),
            passwd: "password".to_string(),
            created_at: 1,
        };
        let res = fetch_one(&pool, test.post_json().unwrap()).await.unwrap();
        assert_eq!(res.id, 1);
        assert_eq!(res.name, test.name);
        assert_eq!(res.passwd, test.passwd);
        assert_eq!(res.created_at, test.created_at);

        let res = all_rows(&pool).await.remove(0);
        assert_eq!(res.id, 1);
        assert_eq!(res.name, test.name);
        assert_eq!(res.passwd, test.passwd);
        assert_eq!(res.created_at, test.created_at);
    });
}

#[test]
fn post_twice_counts_up() {
    run(async {
        let pool = memory_pool().await;
        create_table(&pool).await.unwrap();
        let test = TestModel {
            id: 18,
            name: "Test".to_string(),
            passwd: "password".to_string(),
            created_at: 1,
        };
        let first = fetch_one(&pool, test.post_json().unwrap()).await.unwrap();
        let second = fetch_one(&pool, test.post_json().unwrap()).await.unwrap();
        assert_eq!(first.id, 1);
        assert_eq!(first.name, "Test");
        assert_eq!(second.id, 2);
        assert_eq!(second.name, "Test");
        assert_eq!(all_rows(&pool).await.len(), 2);
    });
}

#[test]
fn test_get() {
    run(async {
        let pool = memory_pool().await;
        create_table(&pool).await.unwrap();
        let test = TestModel {
            id: 18,
            name: "Test".to_string(),
            passwd: "password".to_string(),
            created_at: 1,
        };
        let res = fetch_one(&pool, test.post_json().unwrap()).await.unwrap();

        let res1 = fetch_one(&pool, TestModel::get_json(1.into())).await.unwrap();
        assert_eq!(res.id, res1.id);
        assert_eq!(res.name, res1.name);
        assert_eq!(res.passwd, res1.passwd);
        assert_eq!(res.created_at, res1.created_at);
    });
}

#[test]
fn get_of_a_missing_row_is_not_found() {
    run(async {
        let pool = memory_pool().await;
        create_table(&pool).await.unwrap();
        let res = fetch_one(&pool, TestModel::get_json(1.into())).await;
        let error = res.err().unwrap();
        assert_eq!(error, Error::RowNotFound);
        assert_eq!(error.status_code(), 404);
    });
}

#[test]
fn test_put() {
    run(async {
        let pool = memory_pool().await;
        create_table(&pool).await.unwrap();
        let mut test = TestModel {
            id: 18,
            name: "Test".to_string(),
            passwd: "password".to_string(),
            created_at: 1,
        };
        let res = fetch_one(&pool, test.put_json().unwrap()).await.unwrap();
        assert_eq!(res.id, 18);
        assert_eq!(res.name, test.name);
        assert_eq!(res.passwd, test.passwd);
        assert_eq!(res.created_at, test.created_at);

        let db_res = all_rows(&pool).await.remove(0);
        assert_eq!(db_res.id, 18);
        assert_eq!(db_res.name, test.name);
        assert_eq!(db_res.passwd, test.passwd);
        assert_eq!(db_res.created_at, test.created_at);

        test.name = "test".to_string();
        test.passwd = "Password".to_string();
        let res = fetch_one(&pool, test.put_json().unwrap()).await.unwrap();
        assert_eq!(res.id, 18);
        assert_eq!(res.name, test.name);
        assert_eq!(res.passwd, test.passwd);
        assert_eq!(res.created_at, test.created_at);

        let db_res = all_rows(&pool).await;
        assert_eq!(db_res.len(), 1);
        let db_res = db_res.get(0).unwrap();
        assert_eq!(db_res.id, 18);
        assert_eq!(db_res.name, test.name);
        assert_eq!(db_res.passwd, test.passwd);
        assert_eq!(db_res.created_at, test.created_at);
    });
}

#[test]
fn put_over_an_existing_row_replaces_it() {
    run(async {
        let pool = memory_pool().await;
        create_table(&pool).await.unwrap();
        let first = TestModel {
            id: 18,
            name: "Test".to_string(),
            passwd: "password".to_string(),
            created_at: 1,
        };
        fetch_one(&pool, first.post_json().unwrap()).await.unwrap();
        let second =
            TestModel { id: 1, name: "test".to_string(), passwd: "Passwd".to_string(), created_at: 2 };
        let res = fetch_one(&pool, second.upsert(&[], "id").unwrap()).await.unwrap();
        assert_eq!(res.id, 1);
        let rows = all_rows(&pool).await;
        assert_eq!(rows.len(), 1);
        assert_eq!(rows[0].id, 1);
        assert_eq!(rows[0].name, "test");
        assert_eq!(rows[0].passwd, "Passwd");
        assert_eq!(rows[0].created_at, 2);
    });
}

#[test]
fn axum_model_test_delete() {
    run(async {
        let pool = memory_pool().await;
        create_table(&pool).await.unwrap();
        let test = TestModel {
            id: 18,
            name: "Test".to_string(),
            passwd: "password".to_string(),
            created_at: 1,
        };
        fetch_one(&pool, test.put_json().unwrap()).await.unwrap();

        let res = fetch_all(&pool, TestModel::delete(&TestModel::primary_col(), test.id.into()))
            .await
            .unwrap();
        assert_eq!(res.len(), 1);
        let res = res.get(0).unwrap();
        assert_eq!(res.id, test.id);
        assert_eq!(res.name, test.name);
        assert_eq!(res.passwd, test.passwd);
        assert_eq!(res.created_at, test.created_at);

        let res = all_rows(&pool).await;
        assert_eq!(res.len(), 0);

        let test1 = TestModel {
            id: 19,
            name: "Test".to_string(),
            passwd: "password".to_string(),
            created_at: 1,
        };
        fetch_one(&pool, test.put_json().unwrap()).await.unwrap();
        fetch_one(&pool, test1.put_json().unwrap()).await.unwrap();

        let res =
            fetch_all(&pool, TestModel::delete_json(&TestModel::primary_col(), test.id.into()))
                .await
                .unwrap();
        assert_eq!(res.len(), 1);
        let res = res.get(0).unwrap();
        assert_eq!(res.id, test.id);
        assert_eq!(res.name, test.name);
        assert_eq!(res.passwd, test.passwd);
        assert_eq!(res.created_at, test.created_at);

        let db_res = all_rows(&pool).await;
        assert_eq!(db_res.len(), 1);
        let db_res = db_res.get(0).unwrap();
        assert_eq!(db_res.id, test1.id);
        assert_eq!(db_res.name, test1.name);
        assert_eq!(db_res.passwd, test1.passwd);
        assert_eq!(db_res.created_at, test1.created_at);

        fetch_one(&pool, test.put_json().unwrap()).await.unwrap();
        let res = fetch_all(&pool, TestModel::delete_json("name", "Test".into())).await.unwrap();
        assert_eq!(res.len(), 2);
        let (res, res1) = (res.get(0).unwrap(), res.get(1).unwrap());
        assert_eq!(res.id, test.id);
        assert_eq!(res.name, test.name);
        assert_eq!(res.passwd, test.passwd);
        assert_eq!(res.created_at, test.created_at);

        assert_eq!(res1.id, test1.id);
        assert_eq!(res1.name, test1.name);
        assert_eq!(res1.passwd, test1.passwd);
        assert_eq!(res1.created_at, test1.created_at);

        let db_res = all_rows(&pool).await;
        assert_eq!(db_res.len(), 0);
    });
}
