//! A document: an ordered collection of pages and the index of the page
//! being edited.  Events and draw requests go to the active page.

use vstd::prelude::*;

use crate::context::RenderContext;
use crate::events::{ButtonEvent, KeyEvent, MotionEvent};
use crate::geometry::{size_wf, Size};
use crate::page::{
    button_event_in_range, motion_event_in_range, page_motion_rel, page_press_rel, Page,
};

verus! {

pub struct Document {
    pub pages: Vec<Page>,
    pub active_page_index: usize,
    pub transparent: bool,
}

impl Document {
    /// The document invariant: the active index addresses a page when
    /// there is one, and every page is well formed.
    pub open spec fn wf(self) -> bool {
        &&& (self.pages@.len() > 0 ==> self.active_page_index < self.pages@.len())
        &&& forall|i: int| 0 <= i < self.pages@.len() ==> (#[trigger] self.pages@[i]).wf()
    }

    /// A document of `pages_number` fresh pages of the given size, the
    /// first one active.
    pub fn new(pages_number: usize, size: Size, transparent: bool) -> (r: Document)
        requires
            size_wf(size),
            pages_number <= 64,
        ensures
            r.pages@.len() == pages_number,
            forall|i: int|
                0 <= i < pages_number ==> (#[trigger] r.pages@[i]).size == size
                    && r.pages@[i].wf(),
            r.active_page_index == 0,
            r.transparent == transparent,
            r.wf(),
    {
        let mut pages: Vec<Page> = Vec::new();
        let mut i: usize = 0;
        while i < pages_number
            invariant
                size_wf(size),
                0 <= i <= pages_number,
                pages@.len() == i,
                forall|j: int|
                    0 <= j < i ==> (#[trigger] pages@[j]).size == size && pages@[j].wf(),
            decreases pages_number - i,
        {
            let mut page = Page::new();
            page.set_size(size);
            pages.push(page);
            i = i + 1;
        }
        Document { pages, active_page_index: 0, transparent }
    }

    pub fn get_pages(&self) -> (r: &Vec<Page>)
        ensures
            r == &self.pages,
    {
        &self.pages
    }

    pub fn get_mut_pages(&mut self) -> (r: &mut Vec<Page>)
        ensures
            *r == old(self).pages,
            *final(self) == (Document { pages: *final(r), ..*old(self) }),
    {
        &mut self.pages
    }

    pub fn set_pages(&mut self, pages: Vec<Page>)
        ensures
            *final(self) == (Document { pages, ..*old(self) }),
    {
        self.pages = pages;
    }

    pub fn get_active_page(&self) -> (r: &Page)
        requires
            self.wf(),
            self.pages@.len() > 0,
        ensures
            r == &self.pages@[self.active_page_index as int],
    {
        &self.pages[self.active_page_index]
    }

    pub fn get_mut_active_page(&mut self) -> (r: &mut Page)
        requires
            old(self).wf(),
            old(self).pages@.len() > 0,
        ensures
            *r == old(self).pages@[old(self).active_page_index as int],
            final(self).pages@ == old(self).pages@.update(
                old(self).active_page_index as int,
                *final(r),
            ),
            *final(self) == (Document { pages: final(self).pages, ..*old(self) }),
    {
        let idx = self.active_page_index;
        let pages = &mut self.pages;
        proof {
            assert(idx < pages@.len());
        }
        &mut pages[idx]
    }

    pub fn get_active_page_index(&self) -> (r: usize)
        ensures
            r == self.active_page_index,
    {
        self.active_page_index
    }

    pub fn set_active_page_index(&mut self, active_page_index: usize)
        ensures
            *final(self) == (Document { active_page_index, ..*old(self) }),
    {
        self.active_page_index = active_page_index;
    }

    pub fn get_transparent(&self) -> (r: bool)
        ensures
            r == self.transparent,
    {
        self.transparent
    }

    pub fn set_transparent(&mut self, transparent: bool)
        ensures
            *final(self) == (Document { transparent, ..*old(self) }),
    {
        self.transparent = transparent;
    }

    /// One draw pass of the active page.
    pub fn draw(&self) -> (ctx: RenderContext)
        requires
            self.wf(),
            self.pages@.len() > 0,
        ensures
            ctx.transform == self.pages@[self.active_page_index as int].transform_spec(),
            ctx.cmds@ == self.pages@[self.active_page_index as int].page_cmds_spec(),
    {
        self.pages[self.active_page_index].draw()
    }

    /// Forward a pointer motion to the active page.
    pub fn motion_notify(&mut self, event: &MotionEvent) -> (r: bool)
        requires
            old(self).wf(),
            old(self).pages@.len() > 0,
            motion_event_in_range(*event),
        ensures
            final(self).pages@.len() == old(self).pages@.len(),
            forall|j: int|
                0 <= j < old(self).pages@.len() && j != old(self).active_page_index
                    ==> final(self).pages@[j] == #[trigger] old(self).pages@[j],
            page_motion_rel(
                old(self).pages@[old(self).active_page_index as int],
                final(self).pages@[old(self).active_page_index as int],
                *event,
                r,
            ),
            *final(self) == (Document { pages: final(self).pages, ..*old(self) }),
            final(self).wf(),
    {
        let idx = self.active_page_index;
        let pages = &mut self.pages;
        proof {
            assert(idx < pages@.len());
            assert(pages@[idx as int].wf());
        }
        let r = pages[idx].motion_notify(event);
        r
    }

    /// Forward a button press to the active page.
    pub fn button_press(&mut self, event: &ButtonEvent) -> (r: bool)
        requires
            old(self).wf(),
            old(self).pages@.len() > 0,
            button_event_in_range(*event),
        ensures
            final(self).pages@.len() == old(self).pages@.len(),
            forall|j: int|
                0 <= j < old(self).pages@.len() && j != old(self).active_page_index
                    ==> final(self).pages@[j] == #[trigger] old(self).pages@[j],
            page_press_rel(
                old(self).pages@[old(self).active_page_index as int],
                final(self).pages@[old(self).active_page_index as int],
                *event,
                r,
            ),
            *final(self) == (Document { pages: final(self).pages, ..*old(self) }),
            final(self).wf(),
    {
        let idx = self.active_page_index;
        let pages = &mut self.pages;
        proof {
            assert(idx < pages@.len());
            assert(pages@[idx as int].wf());
        }
        let r = pages[idx].button_press(event);
        r
    }

    /// A button release changes nothing.
    pub fn button_release(&mut self, event: &ButtonEvent) -> (r: bool)
        requires
            old(self).wf(),
            old(self).pages@.len() > 0,
        ensures
            final(self).pages@ == old(self).pages@,
            *final(self) == (Document { pages: final(self).pages, ..*old(self) }),
            r == false,
            final(self).wf(),
    {
        let idx = self.active_page_index;
        let pages = &mut self.pages;
        proof {
            assert(idx < pages@.len());
            assert(pages@[idx as int].wf());
        }
        let r = pages[idx].button_release(event);
        proof {
            assert(final(self).pages@ =~= old(self).pages@);
        }
        r
    }

    /// Forward a key press to the active page (the pan modifier arms
    /// its pan action).
    pub fn key_press(&mut self, event: &KeyEvent) -> (r: bool)
        requires
            old(self).wf(),
            old(self).pages@.len() > 0,
        ensures
            final(self).pages@.len() == old(self).pages@.len(),
            forall|j: int|
                0 <= j < old(self).pages@.len() && j != old(self).active_page_index
                    ==> final(self).pages@[j] == #[trigger] old(self).pages@[j],
            ({
                let p0 = old(self).pages@[old(self).active_page_index as int];
                let p1 = final(self).pages@[old(self).active_page_index as int];
                &&& (event.key == crate::events::PAN_KEY ==> p1 == (Page {
                    pan_armed: true,
                    ..p0
                }) && r == true)
                &&& (event.key != crate::events::PAN_KEY ==> p1 == p0 && r == false)
            }),
            *final(self) == (Document { pages: final(self).pages, ..*old(self) }),
            final(self).wf(),
    {
        let idx = self.active_page_index;
        let pages = &mut self.pages;
        proof {
            assert(idx < pages@.len());
            assert(pages@[idx as int].wf());
        }
        pages[idx].key_press(event)
    }

    /// Forward a key release to the active page (the pan modifier
    /// disarms its pan action).
    pub fn key_release(&mut self, event: &KeyEvent) -> (r: bool)
        requires
            old(self).wf(),
            old(self).pages@.len() > 0,
        ensures
            final(self).pages@.len() == old(self).pages@.len(),
            forall|j: int|
                0 <= j < old(self).pages@.len() && j != old(self).active_page_index
                    ==> final(self).pages@[j] == #[trigger] old(self).pages@[j],
            ({
                let p0 = old(self).pages@[old(self).active_page_index as int];
                let p1 = final(self).pages@[old(self).active_page_index as int];
                &&& (event.key == crate::events::PAN_KEY ==> p1 == (Page {
                    pan_armed: false,
                    pan_last: None,
                    ..p0
                }) && r == true)
                &&& (event.key != crate::events::PAN_KEY ==> p1 == p0 && r == false)
            }),
            *final(self) == (Document { pages: final(self).pages, ..*old(self) }),
            final(self).wf(),
    {
        let idx = self.active_page_index;
        let pages = &mut self.pages;
        proof {
            assert(idx < pages@.len());
            assert(pages@[idx as int].wf());
        }
        pages[idx].key_release(event)
    }
}

} // verus!
