//! The views of the application and the commands the front-end logic
//! hands to the core.

use vstd::prelude::*;
use crate::browse::{BrowseCategory, LibraryTarget, TrackInfo};

verus! {

/// Sort modes of a browse column.
#[derive(PartialEq, Eq, Structural, Clone, Copy, Debug)]
pub enum ColumnSortMode {
    Default,
    ByArtist,
    ByAlbum,
    ByTitle,
    ByDuration,
    Shuffled,
}

/// The DJ modes, which each insert one extra track per transition.
#[derive(PartialEq, Eq, Structural, Clone, Copy, Debug)]
pub enum DjMode {
    Stretch,
    Gemini,
    Freeze,
    Twofer,
    Contempo,
    Groupie,
}

/// Services an external search can open.
#[derive(PartialEq, Eq, Structural, Clone, Copy, Debug)]
pub enum SearchTarget {
    AppleMusic,
    Spotify,
    YouTube,
}

/// The application's top-level views.
#[derive(PartialEq, Eq, Structural, Clone, Copy, Debug)]
pub enum AppView {
    Auth,
    Browse,
    Help,
    NowPlaying,
    Queue,
    Related,
    Search,
    Settings,
    Similar,
}

/// The commands the front-end logic hands to the core.
#[derive(Clone, Debug)]
pub enum Action {
    LoadArtistAlbumsForMiller { artist_key: String },
    LoadAlbumTracksForMiller { album_key: String },
    LoadGenreTracksForMiller { album_key: String },
    OpenTrackDetails(TrackInfo),
    LoadPlaylistTracksForMiller { playlist_key: String },
    LoadGenreAlbumsForMiller { genre_key: String },
    LoadAllLibraryTracksForMiller,
    LoadAllCompilationTracksForMiller,
    LoadCompilationAllTracksForMiller { artist_key: String, artist_name: String },
    LoadArtistAllTracksForMiller { artist_key: String },
    LoadAllAlbumsForMiller,
    LoadCompilationsForMiller,
    LoadCompilationAlbumsForMiller { artist_key: String, artist_name: String },
    StartPlexRadio { key: String, title: String },
    DrillGenreCategory { category_key: String },
    SetCategory(BrowseCategory),
    SetView(AppView),
    OpenSearchPopup,
    SetSearchQuery(String),
    DeactivateListFilter,
    RefreshCacheStats,
    MoveQueueTrack { from: usize, to: usize },
    PlayTrackFromCategory(usize),
    JumpToRadioTrack(usize),
    PlayAlbumNow { rating_key: String, title: String },
    OpenLibraryPicker,
    Logout,
    Quit,
    ApplyFocusedSortMode(ColumnSortMode),
    ReverseFocusedSortDirection,
    ToggleFocusedColumnGrouping,
    ToggleMillerLayout,
    ToggleTallMode,
    TogglePlayPause,
    Stop,
    Previous,
    Next,
    SeekRelative(i64),
    VolumeUp,
    VolumeDown,
    ToggleMute,
    EnqueueSelection,
    EnqueueSelectionNext,
    PromptSavePlaylist,
    ClearQueue,
    ToggleQueueShuffle,
    ToggleDjMode(DjMode),
    RemixGemini,
    RemixTwofer,
    RemixStretch,
    RemixDoppelganger,
    RemixShuffle,
    RemixUndoShuffle,
    OpenArtistRadioPicker,
    OpenAdventureLauncher,
    OpenExternalSearch { target: SearchTarget, query: Option<String> },
    NavigateIntoFolder(String),
    PlayFolderTrack(usize),
    LoadMorePlaylistTracks { playlist_key: String, offset: u32 },
    PlayTrackFromMiller { column_index: usize, track_index: usize, single_track: bool },
    PlayGenreTrackFromMiller { column_index: usize, track_index: usize, single_track: bool },
    PlayPlaylistTrackFromMiller { column_index: usize, track_index: usize, single_track: bool },
    PlayTrack(TrackInfo),
    EnqueueTrack(TrackInfo),
    EnqueueTracksNext(Vec<TrackInfo>),
    LoadSimilarTracks { rating_key: String, title: String },
    LoadSimilarAlbums { rating_key: String, title: String },
    LoadSimilarArtists { artist_key: String, title: String },
    LoadRelated { artist_key: String, title: String },
    OpenAdventureLauncherWithStart(TrackInfo),
    LoadWaveform,
    ShowArtistBio { artist_key: String, artist_name: String },
    OpenInLibrary(LibraryTarget),
    EnqueueAlbum { rating_key: String, title: String },
    EnqueueAlbumNext { rating_key: String, title: String },
    PlayPlaylistNow { playlist_key: String, title: String },
    MoveSelectedTracksUp,
    MoveSelectedTracksDown,
    RemoveSelectedFromQueue,
    RemoveFromQueue(usize),
    MoveQueueRowUp(usize),
    MoveQueueRowDown(usize),
    RefreshCurrentView,
    ClearLibraryCache,
    ClearArtworkCache,
    ClearSubfolderCache,
    SaveQueueAsPlaylist(String),
    LoadSpectrogram,
}

} // verus!
