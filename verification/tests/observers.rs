//! Plugins and formats that a program brings along.
use amalgam::distributed::{seal, unseal};
use amalgam::{
    CacheEvent, DistributedEntry, DistributedSerializer, Duration, Entry, EntryOptions, Error,
    Plugin, PluginHost, Tag, Timestamp,
};
use std::sync::{Arc, Mutex};

/// Notes down what it is told.
struct Recorder {
    name: String,
    notes: Arc<Mutex<Vec<String>>>,
}

impl Recorder {
    fn note(&self, text: String) {
        self.notes.lock().unwrap().push(text);
    }
}

impl Plugin for Recorder {
    fn name(&self) -> &str {
        &self.name
    }

    fn on_start(&self) {
        self.note(format!("{} starts", self.name));
    }

    fn on_event(&self, event: &CacheEvent) {
        self.note(format!("{} sees {event:?}", self.name));
    }
}

#[test]
fn every_plugin_is_told_in_order() {
    let notes = Arc::new(Mutex::new(Vec::new()));
    let recorder = |name: &str| -> Arc<dyn Plugin> {
        Arc::new(Recorder {
            name: name.to_owned(),
            notes: notes.clone(),
        })
    };
    let host = PluginHost::new(vec![recorder("a"), recorder("b")]);
    assert!(!host.is_empty());
    host.notify(&CacheEvent::Clear);
    assert_eq!(
        *notes.lock().unwrap(),
        vec!["a starts", "b starts", "a sees Clear", "b sees Clear"]
    );
    let nobody: PluginHost<Arc<dyn Plugin>> = PluginHost::default();
    assert!(nobody.is_empty());
    nobody.notify(&CacheEvent::Clear);
}

/// Writes the value and the creation tick of an envelope as text.
struct Plain;

impl DistributedSerializer<String> for Plain {
    fn serialize(&self, entry: &DistributedEntry<String>) -> Result<Vec<u8>, Error> {
        if entry.value.is_empty() {
            return Err(Error::Serialization("nothing to write".to_owned()));
        }
        let text = format!("{}@{}", entry.value, entry.created_ticks);
        Ok(text.into_bytes())
    }

    fn deserialize(&self, bytes: &[u8]) -> Result<DistributedEntry<String>, Error> {
        let garbled = || Error::Deserialization("garbled".to_owned());
        let text = std::str::from_utf8(bytes).map_err(|_| garbled())?;
        let (value, ticks) = text.split_once('@').ok_or_else(garbled)?;
        Ok(DistributedEntry {
            value: value.to_owned(),
            created_ticks: ticks.parse().map_err(|_| garbled())?,
            logical_expiration_ticks: 0,
            physical_expiration_ticks: 0,
            is_from_fail_safe: false,
            etag: None,
            last_modified_ticks: None,
            tags: Vec::new(),
        })
    }
}

fn entry(value: &str) -> Entry<String> {
    Entry::fresh(
        value.to_owned(),
        &EntryOptions::default(),
        Timestamp::from_ticks(7),
        vec![Tag::new("t").unwrap()],
        None,
        None,
        Duration::zero(),
    )
}

#[test]
fn entries_are_sealed_in_the_given_format() {
    assert_eq!(seal(&entry("v"), &Plain), Ok(b"v@7".to_vec()));
    assert_eq!(
        seal(&entry(""), &Plain),
        Err(Error::Serialization("nothing to write".to_owned()))
    );
    let back = unseal(Some(b"v@7".to_vec()), &Plain).unwrap().unwrap();
    assert_eq!((back.value.as_str(), back.created_ticks), ("v", 7));
    assert!(matches!(unseal(None, &Plain), Ok(None)));
    let garbled = unseal(Some(b"v".to_vec()), &Plain);
    assert!(matches!(garbled, Err(Error::Deserialization(_))));
}
