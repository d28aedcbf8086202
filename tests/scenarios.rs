use std::collections::HashMap;

use base64::engine::general_purpose::STANDARD;
use base64::Engine;
use image_decrypt::error::{FetchError, ResolveError, TransformError};
use image_decrypt::flight::{FlightRegistry, Role};
use image_decrypt::pipeline::{Action, Event, Resolve};
use image_decrypt::reply::{respond, Fault, Reply};

const URL_A: &str = "http://example.test/a.png";

struct World {
    cache: HashMap<String, String>,
    cache_up: bool,
    origin: HashMap<String, Result<Vec<u8>, FetchError>>,
    secrets: HashMap<Vec<u8>, Vec<u8>>,
    lookups: usize,
    fetches: usize,
    decrypts: usize,
    registry: FlightRegistry<u32>,
}

impl World {
    fn new() -> World {
        World {
            cache: HashMap::new(),
            cache_up: true,
            origin: HashMap::new(),
            secrets: HashMap::new(),
            lookups: 0,
            fetches: 0,
            decrypts: 0,
            registry: FlightRegistry::new(),
        }
    }

    fn serve(&mut self, url: &str, encrypted: &[u8], plain: &[u8]) {
        self.origin.insert(url.to_string(), Ok(encrypted.to_vec()));
        self.secrets.insert(encrypted.to_vec(), plain.to_vec());
    }

    fn look_up(&mut self, key: &str) -> Event {
        self.lookups += 1;
        if !self.cache_up {
            return Event::CacheUnavailable;
        }
        match self.cache.get(key) {
            Some(p) => Event::CacheHit(p.clone()),
            None => Event::CacheMiss,
        }
    }

    fn fetch(&mut self, url: &str) -> Event {
        self.fetches += 1;
        match self.origin.get(url) {
            Some(Ok(b)) => Event::Fetched(b.clone()),
            Some(Err(e)) => Event::FetchFailed(*e),
            None => Event::FetchFailed(FetchError::Status(404)),
        }
    }

    fn decrypt(&mut self, text: &str) -> Event {
        self.decrypts += 1;
        let input = STANDARD.decode(text).expect("decrypt input is base64");
        match self.secrets.get(&input) {
            Some(plain) => Event::Decrypted(STANDARD.encode(plain)),
            None => Event::DecryptFailed(TransformError::Execution),
        }
    }

    fn store(&mut self, key: String, payload: String) -> Event {
        if self.cache_up {
            self.cache.insert(key, payload);
            Event::Stored
        } else {
            Event::StoreFailed
        }
    }

    /// Performs one action; `Err` carries the outcome once the resolve ends.
    fn perform(
        &mut self,
        key: &str,
        action: Action,
        waiter: u32,
    ) -> Result<Event, Result<String, ResolveError>> {
        match action {
            Action::LookUp(k) => Ok(self.look_up(&k)),
            Action::Join(k) => Ok(Event::Joined(self.registry.join(k, waiter))),
            Action::Await => panic!("a follower waits for its leader"),
            Action::Fetch(u) => Ok(self.fetch(&u)),
            Action::Decrypt(t) => Ok(self.decrypt(&t)),
            Action::Store(k, p) => Ok(self.store(k, p)),
            Action::Publish(o) => {
                let waiters = self.registry.complete(&key.to_string());
                assert!(waiters.is_empty());
                Err(o)
            }
            Action::Finish(o) => Err(o),
        }
    }

    fn resolve(&mut self, image: Option<&str>) -> Result<String, ResolveError> {
        let (mut r, mut action) = Resolve::start(image.map(|s| s.to_string()))?;
        let key = image.unwrap_or("").to_string();
        loop {
            match self.perform(&key, action, 0) {
                Ok(ev) => {
                    assert!(r.expects(&ev));
                    action = r.on_event(ev);
                }
                Err(outcome) => {
                    assert!(r.is_done());
                    return outcome;
                }
            }
        }
    }

    fn request(&mut self, image: Option<&str>) -> Reply {
        let outcome = self.resolve(image);
        respond(&outcome)
    }
}

fn image_of(reply: Reply) -> Vec<u8> {
    match reply {
        Reply::Image(b) => b,
        Reply::Rejected(f) => panic!("expected an image, got {:?}", f),
    }
}

#[test]
fn scenario_first_request_fetches_decrypts_and_caches() {
    let mut w = World::new();
    w.serve(URL_A, b"XXXX-encrypted", b"YYYY-plain-png");
    let reply = w.request(Some(URL_A));
    assert_eq!(reply.status(), 200);
    assert_eq!(image_of(reply), b"YYYY-plain-png".to_vec());
    assert_eq!(w.cache.get(URL_A), Some(&STANDARD.encode(b"YYYY-plain-png")));
    assert_eq!(w.fetches, 1);
    assert_eq!(w.decrypts, 1);
}

#[test]
fn scenario_second_request_hits_cache() {
    let mut w = World::new();
    w.serve(URL_A, b"XXXX-encrypted", b"YYYY-plain-png");
    let _ = w.request(Some(URL_A));
    let reply = w.request(Some(URL_A));
    assert_eq!(reply.status(), 200);
    assert_eq!(image_of(reply), b"YYYY-plain-png".to_vec());
    assert_eq!(w.fetches, 1);
    assert_eq!(w.decrypts, 1);
}

#[test]
fn scenario_origin_not_found() {
    let mut w = World::new();
    w.origin.insert(URL_A.to_string(), Err(FetchError::Status(404)));
    let outcome = w.resolve(Some(URL_A));
    assert_eq!(outcome, Err(ResolveError::Fetch(FetchError::Status(404))));
    let reply = respond(&outcome);
    assert!(matches!(reply, Reply::Rejected(Fault::FetchFailed(FetchError::Status(404)))));
    assert_eq!(reply.status(), 400);
    assert!(w.cache.is_empty());
    assert_eq!(w.decrypts, 0);
}

#[test]
fn scenario_cache_unreachable_still_serves() {
    let mut w = World::new();
    w.cache_up = false;
    w.serve(URL_A, b"XXXX-encrypted", b"YYYY-plain-png");
    let reply = w.request(Some(URL_A));
    assert_eq!(reply.status(), 200);
    assert_eq!(image_of(reply), b"YYYY-plain-png".to_vec());
    assert_eq!(w.fetches, 1);
    assert!(w.cache.is_empty());
}

#[test]
fn cache_hit_makes_no_fetch_or_decrypt() {
    let mut w = World::new();
    w.cache.insert(URL_A.to_string(), STANDARD.encode(b"cached"));
    let outcome = w.resolve(Some(URL_A));
    assert_eq!(outcome, Ok(STANDARD.encode(b"cached")));
    assert_eq!(w.fetches, 0);
    assert_eq!(w.decrypts, 0);
    assert_eq!(w.lookups, 1);
}

#[test]
fn resolve_twice_gives_identical_payloads() {
    let mut w = World::new();
    w.serve(URL_A, b"enc", b"plain");
    let first = w.resolve(Some(URL_A));
    let second = w.resolve(Some(URL_A));
    assert!(first.is_ok());
    assert_eq!(first, second);
    assert_eq!(w.fetches, 1);
}

#[test]
fn empty_or_absent_key_touches_nothing() {
    let mut w = World::new();
    assert_eq!(w.resolve(None), Err(ResolveError::Validation));
    assert_eq!(w.resolve(Some("")), Err(ResolveError::Validation));
    assert_eq!(w.lookups + w.fetches + w.decrypts, 0);
    let reply = w.request(None);
    assert!(matches!(reply, Reply::Rejected(Fault::MissingImage)));
    assert_eq!(reply.status(), 400);
}

#[test]
fn failed_decrypt_is_not_cached() {
    let mut w = World::new();
    w.origin.insert(URL_A.to_string(), Ok(b"unknown".to_vec()));
    let outcome = w.resolve(Some(URL_A));
    assert_eq!(outcome, Err(ResolveError::Transform(TransformError::Execution)));
    assert_eq!(respond(&outcome).status(), 500);
    assert!(w.cache.is_empty());
}

#[test]
fn decrypt_receives_base64_of_fetched_bytes() {
    let (mut r, _) = Resolve::start(Some(URL_A.to_string())).ok().unwrap();
    let _ = r.on_event(Event::CacheMiss);
    let _ = r.on_event(Event::Joined(Role::Leader));
    match r.on_event(Event::Fetched(vec![0, 1, 2, 250, 255])) {
        Action::Decrypt(t) => {
            assert_eq!(t, "AAEC+v8=");
            assert_eq!(STANDARD.decode(&t).unwrap(), vec![0, 1, 2, 250, 255]);
        }
        _ => panic!("expected a decrypt"),
    }
}

#[test]
fn decrypted_payload_round_trips_to_plain_bytes() {
    let plain: Vec<u8> = (0u8..=255).collect();
    let mut w = World::new();
    w.serve(URL_A, b"ciphertext", &plain);
    let outcome = w.resolve(Some(URL_A));
    assert_eq!(image_of(respond(&outcome)), plain);
}

#[test]
fn concurrent_resolves_share_one_fetch() {
    let mut w = World::new();
    w.serve(URL_A, b"enc", b"plain");
    let mut runs = Vec::new();
    for _ in 0..3 {
        let (r, a) = Resolve::start(Some(URL_A.to_string())).ok().unwrap();
        runs.push((r, a));
    }
    // every requester misses before any computation ends
    let mut next = Vec::new();
    for (i, (mut r, a)) in runs.into_iter().enumerate() {
        let ev = w.perform(URL_A, a, i as u32).ok().unwrap();
        let a = r.on_event(ev);
        let ev = w.perform(URL_A, a, i as u32).ok().unwrap();
        let a = r.on_event(ev);
        next.push((r, a));
    }
    let mut followers = Vec::new();
    let mut leader = None;
    for (r, a) in next {
        match a {
            Action::Await => followers.push(r),
            other => {
                assert!(leader.is_none());
                leader = Some((r, other));
            }
        }
    }
    assert_eq!(followers.len(), 2);
    let (mut lr, mut la) = leader.unwrap();
    let outcome = loop {
        match la {
            Action::Publish(o) => break o,
            other => {
                let ev = w.perform(URL_A, other, 0).ok().unwrap();
                la = lr.on_event(ev);
            }
        }
    };
    let waiters = w.registry.complete(&URL_A.to_string());
    assert_eq!(waiters, vec![1, 2]);
    for mut f in followers {
        match f.on_event(Event::Published(outcome.clone())) {
            Action::Finish(o) => assert_eq!(o, outcome),
            _ => panic!("a follower finishes"),
        }
    }
    assert_eq!(w.fetches, 1);
    assert_eq!(w.decrypts, 1);
    assert_eq!(outcome, Ok(STANDARD.encode(b"plain")));
}

#[test]
fn concurrent_failure_reaches_every_waiter() {
    let mut reg: FlightRegistry<u32> = FlightRegistry::new();
    assert_eq!(reg.join(URL_A.to_string(), 0), Role::Leader);
    assert_eq!(reg.join(URL_A.to_string(), 1), Role::Follower);
    let (mut leader, _) = Resolve::start(Some(URL_A.to_string())).ok().unwrap();
    let _ = leader.on_event(Event::CacheMiss);
    let _ = leader.on_event(Event::Joined(Role::Leader));
    let outcome = match leader.on_event(Event::FetchFailed(FetchError::Network)) {
        Action::Publish(o) => o,
        _ => panic!("expected a publish"),
    };
    assert_eq!(outcome, Err(ResolveError::Fetch(FetchError::Network)));
    let (mut follower, _) = Resolve::start(Some(URL_A.to_string())).ok().unwrap();
    let _ = follower.on_event(Event::CacheMiss);
    assert!(matches!(follower.on_event(Event::Joined(Role::Follower)), Action::Await));
    assert_eq!(reg.complete(&URL_A.to_string()), vec![1]);
    match follower.on_event(Event::Published(outcome.clone())) {
        Action::Finish(o) => assert_eq!(o, outcome),
        _ => panic!("a follower finishes"),
    }
}
