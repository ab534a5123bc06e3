use nizctl::config::{keymap_from_layers, layers_from_keymap, Keymap};
use nizctl::stream::{collect_stream, keymap_from_records};

/// A pretend two-key, one-layer keyboard: it stores whatever a keymap
/// write pushes at it and reads the whole map back as streamed records.
struct FakeDevice {
    keys: [u8; 2],
}

impl FakeDevice {
    fn push(&mut self, frames: &[Vec<u8>]) {
        // Data frames carry: reserved, opcode (2 bytes), layer, key,
        // zero, active, keycode. Start and end markers carry no key.
        for f in &frames[1..frames.len() - 1] {
            let (layer, key, keycode) = (f[3], f[4], f[7]);
            assert_eq!(layer, 1, "single-layer device");
            self.keys[(key - 1) as usize] = keycode;
        }
    }

    fn pull(&self) -> Vec<Vec<u8>> {
        let mut frames = Vec::new();
        for (k, &code) in self.keys.iter().enumerate() {
            let mut f = vec![0u8; 64];
            f[2] = 1;
            f[3] = (k + 1) as u8;
            f[5] = if code == 0 { 0 } else { 1 };
            f[6] = code;
            frames.push(f);
        }
        let mut terminator = vec![0u8; 64];
        terminator[0] = 1;
        frames.push(terminator);
        frames
    }
}

#[test]
fn pushing_then_pulling_a_document_yields_an_equal_document() {
    let text = "{\"version\":1,\"keyboard\":\"niz/atom66\",\"keymap\":\"default\",\
                \"layout\":\"LAYOUT\",\"layers\":[[\"KC_A\",\"KC_B\"]]}";
    let doc = Keymap::decode(text).unwrap();

    // Push: resolve names to raw keycodes and write the whole map.
    let raw = keymap_from_layers(doc.layers.clone());
    let frames = nizctl::writer::write_frames(&raw);
    let mut device = FakeDevice { keys: [0; 2] };
    device.push(&frames);

    // Pull: stream the records back and rebuild the document.
    let received = device.pull();
    let (records, receives) = collect_stream(&received).unwrap();
    assert_eq!(receives, 3);
    let full_frames: Vec<Vec<u8>> = received[..records.len()].to_vec();
    let pulled = keymap_from_records(&full_frames);
    let rebuilt = Keymap::new("niz/atom66".to_string(), pulled);

    assert_eq!(rebuilt.version, doc.version);
    assert_eq!(rebuilt.keyboard, doc.keyboard);
    assert_eq!(rebuilt.keymap, doc.keymap);
    assert_eq!(rebuilt.layout, doc.layout);
    assert_eq!(rebuilt.layers, doc.layers);
    assert_eq!(rebuilt.encode(), text);
}

#[test]
fn document_survives_raw_keymap_and_back() {
    let raw = vec![vec![4, 5, 40, 0], vec![30, 31]];
    assert_eq!(keymap_from_layers(layers_from_keymap(raw.clone())), raw);
}
