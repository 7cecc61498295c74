//! The system media controls: what a playback event does to what they show.

use vstd::prelude::*;

use crate::text::same_text;

verus! {

#[derive(Clone, Copy, PartialEq, Eq, Structural, Debug)]
pub enum MediaType {
    Audio,
    Video,
}

pub struct MediaMetadata {
    pub id: String,
    pub title: String,
    pub artist: String,
    pub album: String,
    pub track_number: i32,
    pub duration_us: i64,
    pub media_type: MediaType,
}

impl MediaMetadata {
    /// No media, of whatever type.
    pub open spec fn is_blank(self) -> bool {
        &&& self.id@.len() == 0
        &&& self.title@.len() == 0
        &&& self.artist@.len() == 0
        &&& self.album@.len() == 0
        &&& self.track_number == 0
        &&& self.duration_us == 0
    }

    pub fn blank() -> (m: MediaMetadata)
        ensures
            m.is_blank(),
    {
        let m = MediaMetadata {
            id: String::new(),
            title: String::new(),
            artist: String::new(),
            album: String::new(),
            track_number: 0,
            duration_us: 0,
            media_type: MediaType::Audio,
        };
        assert(m.id@ =~= Seq::empty());
        m
    }
}

#[derive(Clone, Copy, PartialEq, Eq, Structural, Debug)]
pub enum Phase {
    Playing,
    Paused,
    Stopped,
}

/// A playback event; a change of phase comes with the phase it leads to.
pub enum SinkEvent {
    MetadataChanged(MediaMetadata),
    QueueCapsChanged { next: bool, previous: bool },
    PhaseChanged(Phase),
    /// `due` says whether the throttle lets the position through.
    Position { position_us: i64, due: bool },
    /// A new picture, as a data URI; `picture` says whether what stands behind
    /// its first comma could be decoded and made into one.
    Artwork { uri: Vec<u8>, picture: bool },
}

/// What the controls are told, in order.
#[derive(Clone, Copy, PartialEq, Eq, Structural, Debug)]
pub enum SinkEffect {
    SetNextEnabled(bool),
    SetPreviousEnabled(bool),
    SetStatus(Phase),
    ClearAll,
    /// Title, artist and album as music, with the track number where there is
    /// one.
    ShowMusic { track: Option<u32> },
    /// Title as video, with the artist as subtitle or without.
    ShowVideo { subtitle: bool },
    ShowThumbnail,
    DropThumbnail,
    Update,
    /// End and position, in ticks of 100 ns.
    Timeline { end: i64, position: i64 },
    /// The throttle lets the next position through, whatever came before.
    ForceNextPosition,
}

pub struct SinkState {
    pub metadata: MediaMetadata,
    pub phase: Option<Phase>,
    pub position_us: i64,
    /// The controls keep a picture, to be shown with what plays.
    pub thumbnail: bool,
}

pub open spec fn timeline(st: SinkState) -> Seq<SinkEffect> {
    if st.metadata.duration_us <= 0 {
        seq![]
    } else {
        seq![
            SinkEffect::Timeline {
                end: (st.metadata.duration_us * 10) as i64,
                position: (st.position_us * 10) as i64,
            },
        ]
    }
}

/// The times of a timeline fit in ticks, where one is told.
pub open spec fn ticks_fit(st: SinkState) -> bool {
    st.metadata.duration_us > 0 ==> {
        &&& st.metadata.duration_us * 10 <= i64::MAX
        &&& i64::MIN <= st.position_us * 10 <= i64::MAX
    }
}

pub open spec fn display(st: SinkState) -> Seq<SinkEffect> {
    seq![
        SinkEffect::ClearAll,
        if st.metadata.media_type == MediaType::Audio {
            SinkEffect::ShowMusic {
                track: if st.metadata.track_number > 0 {
                    Some(st.metadata.track_number as u32)
                } else {
                    None
                },
            }
        } else {
            SinkEffect::ShowVideo { subtitle: st.metadata.artist@.len() > 0 }
        },
    ] + (if st.thumbnail {
        seq![SinkEffect::ShowThumbnail]
    } else {
        seq![]
    }) + seq![SinkEffect::Update] + timeline(st)
}

impl SinkState {
    pub fn new() -> (s: SinkState)
        ensures
            s.metadata.is_blank(),
            s.phase is None,
            s.position_us == 0,
            !s.thumbnail,
    {
        SinkState {
            metadata: MediaMetadata::blank(),
            phase: None,
            position_us: 0,
            thumbnail: false,
        }
    }

    fn update_timeline(&self, effects: &mut Vec<SinkEffect>)
        requires
            ticks_fit(*self),
        ensures
            final(effects)@ == old(effects)@ + timeline(*self),
    {
        let ghost before = effects@;
        if self.metadata.duration_us > 0 {
            effects.push(
                SinkEffect::Timeline {
                    end: self.metadata.duration_us * 10,
                    position: self.position_us * 10,
                },
            );
        }
        assert(effects@ =~= before + timeline(*self));
    }

    fn update_display_properties(&self, effects: &mut Vec<SinkEffect>)
        requires
            ticks_fit(*self),
        ensures
            final(effects)@ == old(effects)@ + display(*self),
    {
        let ghost before = effects@;
        effects.push(SinkEffect::ClearAll);
        if self.metadata.media_type == MediaType::Audio {
            let track: Option<u32> = if self.metadata.track_number > 0 {
                Some(self.metadata.track_number as u32)
            } else {
                None
            };
            effects.push(SinkEffect::ShowMusic { track });
        } else {
            effects.push(
                SinkEffect::ShowVideo { subtitle: !self.metadata.artist.as_str().is_empty() },
            );
        }
        if self.thumbnail {
            effects.push(SinkEffect::ShowThumbnail);
        }
        effects.push(SinkEffect::Update);
        self.update_timeline(effects);
        assert(effects@ =~= before + display(*self));
    }

    /// Takes one event. `controls` says whether there are controls to tell.
    pub fn deliver(&mut self, ev: SinkEvent, controls: bool, effects: &mut Vec<SinkEffect>)
        requires
            match ev {
                SinkEvent::PhaseChanged(p) => controls && p != Phase::Stopped ==> ticks_fit(
                    *old(self),
                ),
                SinkEvent::Position { position_us, due } => controls && due ==> ticks_fit(
                    SinkState { position_us, ..*old(self) },
                ),
                _ => true,
            },
        ensures
            match ev {
                SinkEvent::MetadataChanged(m) => {
                    let same = m.id@.len() > 0 && m.id@ == old(self).metadata.id@;
                    &&& final(effects)@ == old(effects)@
                    &&& same ==> *final(self) == *old(self)
                    &&& !same ==> *final(self) == (SinkState { metadata: m, ..*old(self) })
                },
                SinkEvent::QueueCapsChanged { next, previous } => {
                    &&& *final(self) == *old(self)
                    &&& final(effects)@ == old(effects)@ + (if controls {
                        seq![
                            SinkEffect::SetNextEnabled(next),
                            SinkEffect::SetPreviousEnabled(previous),
                        ]
                    } else {
                        seq![]
                    })
                },
                SinkEvent::PhaseChanged(p) => {
                    let st = SinkState { phase: Some(p), ..*old(self) };
                    if !controls {
                        *final(self) == st && final(effects)@ == old(effects)@
                    } else {
                        match p {
                            Phase::Playing => {
                                &&& *final(self) == st
                                &&& final(effects)@ == old(effects)@ + (seq![
                                    SinkEffect::SetStatus(Phase::Playing),
                                ] + display(st) + seq![SinkEffect::ForceNextPosition])
                            },
                            Phase::Paused => {
                                &&& *final(self) == st
                                &&& final(effects)@ == old(effects)@ + (seq![
                                    SinkEffect::SetStatus(Phase::Paused),
                                ] + timeline(st) + seq![SinkEffect::ForceNextPosition])
                            },
                            Phase::Stopped => {
                                &&& final(self).metadata.is_blank()
                                &&& final(self).position_us == 0
                                &&& final(self).phase == Some(Phase::Stopped)
                                &&& !final(self).thumbnail
                                &&& final(effects)@ == old(effects)@ + seq![
                                    SinkEffect::DropThumbnail,
                                    SinkEffect::ClearAll,
                                    SinkEffect::Update,
                                    SinkEffect::SetStatus(Phase::Stopped),
                                ]
                            },
                        }
                    }
                },
                SinkEvent::Position { position_us, due } => {
                    &&& *final(self) == (SinkState { position_us, ..*old(self) })
                    &&& final(effects)@ == old(effects)@ + (if due && controls {
                        timeline(*final(self))
                    } else {
                        seq![]
                    })
                },
                SinkEvent::Artwork { uri, picture } => if controls && comma_at(uri@) is Some
                    && picture {
                    &&& *final(self) == (SinkState { thumbnail: true, ..*old(self) })
                    &&& final(effects)@ == old(effects)@ + seq![
                        SinkEffect::ShowThumbnail,
                        SinkEffect::Update,
                    ]
                } else {
                    *final(self) == *old(self) && final(effects)@ == old(effects)@
                },
            },
    {
        let ghost before = effects@;
        assert(before + Seq::<SinkEffect>::empty() =~= before);
        match ev {
            SinkEvent::MetadataChanged(m) => {
                let same = !m.id.as_str().is_empty() && same_text(
                    m.id.as_str(),
                    self.metadata.id.as_str(),
                );
                if !same {
                    self.metadata = m;
                }
            },
            SinkEvent::QueueCapsChanged { next, previous } => {
                if controls {
                    effects.push(SinkEffect::SetNextEnabled(next));
                    effects.push(SinkEffect::SetPreviousEnabled(previous));
                    assert(effects@ =~= before + seq![
                        SinkEffect::SetNextEnabled(next),
                        SinkEffect::SetPreviousEnabled(previous),
                    ]);
                }
            },
            SinkEvent::PhaseChanged(p) => {
                self.phase = Some(p);
                if !controls {
                    return ;
                }
                let ghost st = *self;
                match p {
                    Phase::Playing => {
                        effects.push(SinkEffect::SetStatus(Phase::Playing));
                        self.update_display_properties(effects);
                        assert(effects@ =~= before + (seq![SinkEffect::SetStatus(Phase::Playing)]
                            + display(st)));
                    },
                    Phase::Paused => {
                        effects.push(SinkEffect::SetStatus(Phase::Paused));
                        self.update_timeline(effects);
                        assert(effects@ =~= before + (seq![SinkEffect::SetStatus(Phase::Paused)]
                            + timeline(st)));
                    },
                    Phase::Stopped => {
                        self.metadata = MediaMetadata::blank();
                        self.position_us = 0;
                        self.thumbnail = false;
                        effects.push(SinkEffect::DropThumbnail);
                        effects.push(SinkEffect::ClearAll);
                        effects.push(SinkEffect::Update);
                        effects.push(SinkEffect::SetStatus(Phase::Stopped));
                        assert(effects@ =~= before + seq![
                            SinkEffect::DropThumbnail,
                            SinkEffect::ClearAll,
                            SinkEffect::Update,
                            SinkEffect::SetStatus(Phase::Stopped),
                        ]);
                        return ;
                    },
                }
                let ghost told = effects@;
                effects.push(SinkEffect::ForceNextPosition);
                assert(effects@ =~= told + seq![SinkEffect::ForceNextPosition]);
                assert(effects@ =~= before + ((match p {
                    Phase::Playing => seq![SinkEffect::SetStatus(Phase::Playing)] + display(st),
                    _ => seq![SinkEffect::SetStatus(Phase::Paused)] + timeline(st),
                }) + seq![SinkEffect::ForceNextPosition]));
            },
            SinkEvent::Position { position_us, due } => {
                self.position_us = position_us;
                if due && controls {
                    self.update_timeline(effects);
                }
            },
            SinkEvent::Artwork { uri, picture } => {
                if controls && payload_start(&uri).is_some() && picture {
                    effects.push(SinkEffect::ShowThumbnail);
                    effects.push(SinkEffect::Update);
                    self.thumbnail = true;
                    assert(effects@ =~= before + seq![
                        SinkEffect::ShowThumbnail,
                        SinkEffect::Update,
                    ]);
                }
            },
        }
    }
}

/// The buttons of the controls.
#[derive(Clone, Copy, PartialEq, Eq, Structural, Debug)]
pub enum ControlButton {
    Play,
    Pause,
    Stop,
    Next,
    Previous,
    Other,
}

#[derive(Clone, Copy, PartialEq, Eq, Structural, Debug)]
pub enum MediaCommand {
    Play,
    Pause,
    Stop,
    Next,
    Previous,
}

/// The command of a button.
pub fn on_button_pressed(button: ControlButton) -> (r: Option<MediaCommand>)
    ensures
        r == match button {
            ControlButton::Play => Some(MediaCommand::Play),
            ControlButton::Pause => Some(MediaCommand::Pause),
            ControlButton::Stop => Some(MediaCommand::Stop),
            ControlButton::Next => Some(MediaCommand::Next),
            ControlButton::Previous => Some(MediaCommand::Previous),
            ControlButton::Other => None,
        },
{
    match button {
        ControlButton::Play => Some(MediaCommand::Play),
        ControlButton::Pause => Some(MediaCommand::Pause),
        ControlButton::Stop => Some(MediaCommand::Stop),
        ControlButton::Next => Some(MediaCommand::Next),
        ControlButton::Previous => Some(MediaCommand::Previous),
        ControlButton::Other => None,
    }
}

/// Index of the first comma.
pub open spec fn comma_at(uri: Seq<u8>) -> Option<int>
    decreases uri.len(),
{
    if uri.len() == 0 {
        None
    } else {
        match comma_at(uri.drop_last()) {
            Some(i) => Some(i),
            None => if uri.last() == 0x2c {
                Some(uri.len() - 1)
            } else {
                None
            },
        }
    }
}

proof fn comma_at_prefix(uri: Seq<u8>, n: int)
    requires
        0 <= n <= uri.len(),
        comma_at(uri.take(n)) is Some,
    ensures
        comma_at(uri) == comma_at(uri.take(n)),
    decreases uri.len(),
{
    if n < uri.len() {
        assert(uri.drop_last().take(n) =~= uri.take(n));
        comma_at_prefix(uri.drop_last(), n);
    } else {
        assert(uri.take(n) =~= uri);
    }
}

/// Where the payload of a data URI begins: behind its first comma.
pub fn payload_start(uri: &[u8]) -> (r: Option<usize>)
    ensures
        match (r, comma_at(uri@)) {
            (Some(i), Some(c)) => i == c + 1 && i <= uri@.len(),
            (None, None) => true,
            _ => false,
        },
{
    let mut i: usize = 0;
    assert(uri@.take(0) =~= Seq::empty());
    while i < uri.len()
        invariant
            i <= uri@.len(),
            comma_at(uri@.take(i as int)) is None,
        decreases uri@.len() - i,
    {
        assert(uri@.take(i + 1).drop_last() =~= uri@.take(i as int));
        if uri[i] == 0x2c {
            proof {
                comma_at_prefix(uri@, i + 1);
            }
            return Some(i + 1);
        }
        i += 1;
    }
    assert(uri@.take(uri@.len() as int) =~= uri@);
    None
}

/// `a / b` cut towards zero.
pub open spec fn cut_div(a: int, b: int) -> int {
    if a >= 0 {
        a / b
    } else {
        -((-a) / b)
    }
}

/// The position of a seek, from ticks of 100 ns to milliseconds.
pub fn seek_ms(ticks: i64) -> (r: i64)
    ensures
        r == cut_div(cut_div(ticks as int, 10), 1000),
{
    if ticks >= 0 {
        ticks / 10 / 1000
    } else {
        let up: i128 = -(ticks as i128);
        (-(up / 10 / 1000)) as i64
    }
}

} // verus!
