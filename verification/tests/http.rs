use mod_server::mods::http::{cache_path, get, name, Fetch};
use mod_server::mods::HttpMod;
use mod_server::Error;
use std::collections::HashSet;

fn http(url: &str) -> HttpMod {
    HttpMod { url: url.to_string() }
}

#[test]
fn name_is_the_last_segment() {
    assert_eq!(name(&http("https://example.com/files/mod-1.0.jar")), Ok("mod-1.0.jar".to_string()));
    assert_eq!(name(&http("http://h/a/b/c/x.jar")), Ok("x.jar".to_string()));
}

#[test]
fn name_leaves_out_what_follows_the_jar() {
    assert_eq!(name(&http("https://example.com/dl/mod-1.0.jar?token=1")), Ok("mod-1.0.jar".to_string()));
}

#[test]
fn url_without_jar_has_no_name() {
    assert_eq!(name(&http("https://example.com/files/readme.txt")), Err(Error::Regex));
    assert_eq!(name(&http("mod-1.0.jar")), Err(Error::Regex));
    assert_eq!(name(&http("")), Err(Error::Regex));
    assert_eq!(cache_path(&http("https://example.com/files/")), Err(Error::Regex));
    assert_eq!(get(&http("https://example.com/files/"), false), Err(Error::Regex));
    assert_eq!(get(&http("https://example.com/files/"), true), Err(Error::Regex));
}

#[test]
fn cache_path_is_under_the_cache_root() {
    assert_eq!(
        cache_path(&http("https://example.com/files/mod-1.0.jar")),
        Ok("mod_cache/mod-1.0.jar".to_string())
    );
}

#[test]
fn cached_file_is_used_as_it_is() {
    assert_eq!(
        get(&http("https://example.com/files/mod-1.0.jar"), true),
        Ok(Fetch::Cached("mod_cache/mod-1.0.jar".to_string()))
    );
}

#[test]
fn missing_file_is_downloaded_to_the_cache_path() {
    assert_eq!(
        get(&http("https://example.com/files/mod-1.0.jar"), false),
        Ok(Fetch::Download {
            url: "https://example.com/files/mod-1.0.jar".to_string(),
            dest: "mod_cache/mod-1.0.jar".to_string(),
        })
    );
}

#[test]
fn second_resolution_transfers_nothing() {
    let m = http("https://example.com/files/mod-1.0.jar");
    let mut cache: HashSet<String> = HashSet::new();
    let mut transfers = 0;
    let mut paths = Vec::new();
    for _ in 0..2 {
        let dest = cache_path(&m).unwrap();
        match get(&m, cache.contains(&dest)).unwrap() {
            Fetch::Cached(path) => paths.push(path),
            Fetch::Download { url, dest } => {
                assert_eq!(url, m.url);
                transfers += 1;
                cache.insert(dest.clone());
                paths.push(dest);
            }
        }
    }
    assert_eq!(transfers, 1);
    assert_eq!(paths, vec!["mod_cache/mod-1.0.jar", "mod_cache/mod-1.0.jar"]);
    assert_eq!(cache.len(), 1);
}
