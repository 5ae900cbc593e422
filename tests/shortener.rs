use url_shortener::canonical::canonicalize;
use url_shortener::command::{CreateShortUrlCommand, CreateShortUrlRepository};
use url_shortener::error::AppError;
use url_shortener::id_provider::{FakeIDProvider, IDProvider, NanoIDProvider, ID_LENGTH};
use url_shortener::query::{GetFullUrlQuery, GetFullUrlRepository};
use url_shortener::store::InMemoryRepository;

fn seeded(entries: &[(&str, &str)]) -> InMemoryRepository {
    let mut repo = InMemoryRepository::new();
    for (id, url) in entries {
        repo.insert(id.to_string(), url.to_string());
    }
    repo
}

#[test]
fn get_short_url() {
    let id_provider = FakeIDProvider::new("123".to_owned());
    let repo = InMemoryRepository::new();
    let mut command = CreateShortUrlCommand::new(id_provider, repo);

    let result = command.execute("https://google.com");

    assert_ne!(result, Ok("".to_owned()));
}

#[test]
fn get_two_different_short_url() {
    let idp = NanoIDProvider;
    let repo = InMemoryRepository::new();
    let mut command = CreateShortUrlCommand::new(idp, repo);

    let result1 = command.execute("https://google.com");
    let result2 = command.execute("https://google.com");

    assert_ne!(result1, result2);
}

#[test]
fn after_save_store_should_have_one_item() {
    let idp = NanoIDProvider;
    let repo = InMemoryRepository::new();
    let mut command = CreateShortUrlCommand::new(idp, repo);

    let id = command.execute("https://google.com").unwrap();

    assert_eq!(command.repo().len(), 1);
    let full_url = command.repo().lookup(&id).unwrap();
    assert_eq!(full_url, "https://google.com/");
}

#[test]
fn test_create_and_get_url() {
    let repo = InMemoryRepository::new();
    let mut create_command =
        CreateShortUrlCommand::new(FakeIDProvider::new("123".to_owned()), repo);

    let result1 = create_command.execute("https://google.com");
    let get_query = GetFullUrlQuery::new(create_command.into_repo());
    let result2 = get_query.execute(&result1.unwrap()).unwrap();

    assert_eq!(result2, "https://google.com/".to_owned());
}

#[test]
fn test_get_full_url() {
    let repo = seeded(&[("123", "https://google.com")]);
    let query = GetFullUrlQuery::new(repo);

    let result = query.execute("123");

    assert_eq!(result, Ok("https://google.com".to_owned()));
}

#[test]
fn test_get_from_inmemory_repo() {
    let repo = seeded(&[("123", "https://google.com")]);
    let query = GetFullUrlQuery::new(repo);

    let result = query.execute("123");

    assert_eq!(result, Ok("https://google.com".to_owned()));
}

#[test]
fn test_get_two_different_urls() {
    let repo = seeded(&[("123", "https://google.com"), ("456", "https://github.com")]);
    let query = GetFullUrlQuery::new(repo);

    let result1 = query.execute("123");
    let result2 = query.execute("456");

    assert_eq!(result1, Ok("https://google.com".to_owned()));
    assert_eq!(result2, Ok("https://github.com".to_owned()));
}

#[test]
fn canonical_form_adds_trailing_slash() {
    assert_eq!(canonicalize("https://google.com"), Ok("https://google.com/".to_owned()));
    assert_eq!(
        canonicalize("HTTPS://Example.COM/a/b?q=1"),
        Ok("https://example.com/a/b?q=1".to_owned())
    );
}

#[test]
fn canonicalize_rejects_malformed_input() {
    assert_eq!(canonicalize("not a url"), Err(AppError::URLParseError));
    assert_eq!(canonicalize("not-a-url"), Err(AppError::URLParseError));
    assert_eq!(canonicalize(""), Err(AppError::URLParseError));
    assert_eq!(canonicalize("/relative/path"), Err(AppError::URLParseError));
}

#[test]
fn valid_url_returns_non_empty_id() {
    let mut command = CreateShortUrlCommand::new(NanoIDProvider, InMemoryRepository::new());
    let id = command.execute("https://example.com/page").unwrap();
    assert!(!id.is_empty());
}

#[test]
fn invalid_url_leaves_store_unchanged() {
    let repo = seeded(&[("abc", "https://github.com/")]);
    let mut command = CreateShortUrlCommand::new(FakeIDProvider::new("123".to_owned()), repo);

    assert_eq!(command.execute("not a url"), Err(AppError::URLParseError));
    assert_eq!(command.execute("not-a-url"), Err(AppError::URLParseError));

    assert_eq!(command.repo().len(), 1);
    assert_eq!(command.repo().lookup("123"), Err(AppError::NotFoundError));
    assert_eq!(command.repo().lookup("abc"), Ok("https://github.com/".to_owned()));
}

#[test]
fn fixed_id_last_writer_wins() {
    let mut command =
        CreateShortUrlCommand::new(FakeIDProvider::new("123".to_owned()), InMemoryRepository::new());

    assert_eq!(command.execute("https://google.com"), Ok("123".to_owned()));
    assert_eq!(command.execute("https://github.com"), Ok("123".to_owned()));

    assert_eq!(command.repo().len(), 1);
    assert_eq!(command.repo().lookup("123"), Ok("https://github.com/".to_owned()));
}

#[test]
fn round_trip_returns_canonical_form() {
    let mut command = CreateShortUrlCommand::new(NanoIDProvider, InMemoryRepository::new());
    let raw = "http://example.org";
    let id = command.execute(raw).unwrap();
    let query = GetFullUrlQuery::new(command.into_repo());
    assert_eq!(query.execute(&id), canonicalize(raw));
    assert_eq!(query.execute(&id), Ok("http://example.org/".to_owned()));
}

#[test]
fn lookup_of_unknown_id_is_not_found() {
    let mut command =
        CreateShortUrlCommand::new(FakeIDProvider::new("123".to_owned()), InMemoryRepository::new());
    command.execute("https://google.com").unwrap();
    let query = GetFullUrlQuery::new(command.into_repo());
    assert_eq!(query.execute("456"), Err(AppError::NotFoundError));
    assert_eq!(query.execute(""), Err(AppError::NotFoundError));

    let empty = GetFullUrlQuery::new(InMemoryRepository::new());
    assert_eq!(empty.execute("123"), Err(AppError::NotFoundError));
}

#[test]
fn store_size_counts_successful_creates_with_distinct_ids() {
    let mut repo = InMemoryRepository::new();
    let urls = ["https://a.example", "bad url", "https://b.example", "ftp://c.example/x", "nope"];
    let mut successes = 0;
    for (i, url) in urls.iter().enumerate() {
        let provider = FakeIDProvider::new(format!("id{}", i));
        let mut command = CreateShortUrlCommand::new(provider, repo);
        if command.execute(url).is_ok() {
            successes += 1;
        }
        repo = command.into_repo();
    }
    assert_eq!(successes, 3);
    assert_eq!(repo.len(), 3);
}

#[test]
fn nano_ids_are_url_safe_and_fixed_length() {
    let provider = NanoIDProvider;
    for _ in 0..20 {
        let id = provider.provide();
        assert_eq!(id.chars().count(), ID_LENGTH);
        assert!(id.chars().all(|c| c.is_ascii_alphanumeric() || c == '_' || c == '-'));
    }
}

#[test]
fn save_mapping_returns_the_drawn_id() {
    let mut command = CreateShortUrlCommand::new(NanoIDProvider, InMemoryRepository::new());
    assert_eq!(
        command.save_mapping("https://a.example/".to_owned(), "first".to_owned()),
        Ok("first".to_owned())
    );
    assert_eq!(
        command.save_mapping("https://a.example/".to_owned(), "second".to_owned()),
        Ok("second".to_owned())
    );
    assert_eq!(command.repo().len(), 2);
    assert_eq!(command.repo().lookup("first"), Ok("https://a.example/".to_owned()));
    assert_eq!(command.repo().lookup("second"), Ok("https://a.example/".to_owned()));
}

#[test]
fn fake_provider_repeats_its_id() {
    let provider = FakeIDProvider::new("xyz".to_owned());
    assert_eq!(provider.provide(), "xyz");
    assert_eq!(provider.provide(), "xyz");
}

#[test]
fn repository_trait_operations() {
    let mut repo = InMemoryRepository::new();
    assert_eq!(repo.len(), 0);
    assert_eq!(repo.save("https://a.example/".to_owned(), "k".to_owned()), Ok(()));
    assert_eq!(repo.get("k"), Ok("https://a.example/".to_owned()));
    assert_eq!(repo.save("https://b.example/".to_owned(), "k".to_owned()), Ok(()));
    assert_eq!(repo.get("k"), Ok("https://b.example/".to_owned()));
    assert_eq!(repo.len(), 1);
    assert_eq!(repo.get("missing"), Err(AppError::NotFoundError));
}
