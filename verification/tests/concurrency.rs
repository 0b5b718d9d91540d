use movie_store::handlers::{get_movie, post_movie};
use movie_store::movie::Movie;
use movie_store::state::AppState;
use std::collections::HashSet;
use tokio::runtime::{Builder, Runtime};

fn numbered(n: u16) -> Movie {
    Movie { id: String::from("ignored"), name: format!("Movie {}", n), year: n, was_good: n % 3 == 0 }
}

fn eight_threads() -> Runtime {
    Builder::new_multi_thread().worker_threads(8).build().unwrap()
}

#[test]
fn parallel_creates_then_parallel_fetches_keep_the_records_apart() {
    let runtime = eight_threads();
    let state = AppState::new();

    let creators: Vec<_> = (0..64u16)
        .map(|n| {
            let state = state.clone();
            runtime.spawn(async move { (n, post_movie(&state, numbered(n)).unwrap().id) })
        })
        .collect();
    let issued: Vec<(u16, String)> = runtime.block_on(async {
        let mut issued = Vec::new();
        for creator in creators {
            issued.push(creator.await.unwrap());
        }
        issued
    });

    let distinct: HashSet<&String> = issued.iter().map(|(_, id)| id).collect();
    assert_eq!(distinct.len(), 64);

    let fetchers: Vec<_> = issued
        .into_iter()
        .map(|(n, id)| {
            let state = state.clone();
            runtime.spawn(async move {
                let found = get_movie(&state, format!("/{}/", id)).unwrap();
                (n, id, found)
            })
        })
        .collect();
    runtime.block_on(async {
        for fetcher in fetchers {
            let (n, id, found) = fetcher.await.unwrap();
            assert_eq!(found.id, id);
            assert_eq!(found.name, format!("Movie {}", n));
            assert_eq!(found.year, n);
            assert_eq!(found.was_good, n % 3 == 0);
        }
    });
}

#[test]
fn creates_and_fetches_that_run_together_all_succeed() {
    let runtime = eight_threads();
    let state = AppState::new();
    let workers: Vec<_> = (0..16u16)
        .map(|w| {
            let state = state.clone();
            runtime.spawn(async move {
                for k in 0..50u16 {
                    let n = w * 50 + k;
                    let id = post_movie(&state, numbered(n)).unwrap().id;
                    let found = get_movie(&state, format!("/{}/", id)).unwrap();
                    assert_eq!(found.id, id);
                    assert_eq!(found.name, format!("Movie {}", n));
                    assert_eq!(found.year, n);
                }
            })
        })
        .collect();
    runtime.block_on(async {
        for worker in workers {
            worker.await.unwrap();
        }
    });
}
