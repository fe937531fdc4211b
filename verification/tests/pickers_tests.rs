use textamp::pickers::{count_line, launcher_title, picker_rows, seed_rows, PickerArtist, SeedResults};
use textamp::tools::PanelRow;

fn s(x: &str) -> String {
    x.to_string()
}

fn artist(k: &str, t: &str) -> PickerArtist {
    PickerArtist { rating_key: s(k), title: s(t) }
}

fn show(rows: &[PanelRow]) -> Vec<String> {
    rows.iter()
        .map(|r| match r {
            PanelRow::Header(h) => format!("H:{}", h),
            PanelRow::Result { label, index, selected } => format!("R:{}:{}:{}", label, index, selected),
            PanelRow::Note(n) => format!("N:{}", n),
        })
        .collect()
}

#[test]
fn artist_picker_rows() {
    let filtered = vec![artist("a", "Ween"), artist("b", "Phish"), artist("c", "Cake")];
    let chosen = vec![artist("c", "Cake"), artist("z", "Gone")];
    assert_eq!(
        show(&picker_rows(&chosen, 5, &filtered, 1)),
        vec![
            s("H:\u{2014} Selected (2/5) \u{2014}"),
            s("R:\u{2713} Cake:2:false"),
            s("R:\u{2713} Gone:0:false"),
            s("H:\u{2014} Available \u{2014}"),
            s("R:  Ween:0:false"),
            s("R:  Phish:1:true"),
            s("R:  Cake:2:false"),
        ]
    );
    assert_eq!(show(&picker_rows(&Vec::new(), 5, &Vec::new(), 0)), vec![s("H:\u{2014} Available \u{2014}")]);
    let many: Vec<PickerArtist> = (0..70).map(|i| artist(&format!("k{i}"), &format!("A{i}"))).collect();
    assert_eq!(picker_rows(&Vec::new(), 3, &many, 0).len(), 61);
    assert_eq!(count_line("4"), "Count: 4");
}

#[test]
fn radio_launcher_rows() {
    let r = SeedResults {
        artists: vec![s("Ween")],
        albums: Vec::new(),
        tracks: vec![(s("Ocean Man"), s("Ween"))],
    };
    assert_eq!(
        show(&seed_rows(Some(&r), false, 1)),
        vec![
            s("H:\u{2014} Artists \u{2014}"),
            s("R:artist: Ween:0:false"),
            s("H:\u{2014} Tracks \u{2014}"),
            s("R:track:  Ocean Man  \u{2014} Ween:1:true"),
        ]
    );
    assert_eq!(show(&seed_rows(None, true, 0)), vec![s("N:Searching\u{2026}")]);
    assert_eq!(show(&seed_rows(None, false, 0)), vec![s("N:Type to search, Enter to seed radio.")]);
    assert_eq!(launcher_title("ween"), "Radio from: ween");
}
