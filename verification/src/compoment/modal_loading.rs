use vstd::prelude::*;

verus! {

/// The "installing" dialog: whether it is up, and the texts it shows.
/// The dialog widget itself belongs to the window; this records its state.
pub struct ModalLoading {
    pub opened: bool,
    pub name: String,
    pub txt_title: String,
}

impl Default for ModalLoading {
    fn default() -> (r: Self)
        ensures
            !r.opened,
            r.name@ == "Loading"@,
            r.txt_title@ == "Installing"@,
    {
        ModalLoading { opened: false, name: "Loading".to_owned(), txt_title: "Installing".to_owned() }
    }
}

impl ModalLoading {
    /// Puts the dialog up (again: it is drawn anew on every frame).
    pub fn show(&mut self)
        ensures
            final(self).opened,
            final(self).name@ == old(self).name@,
            final(self).txt_title@ == old(self).txt_title@,
    {
        self.opened = true;
    }

    /// Takes the dialog down; says whether there was one up to close.
    pub fn drop(&mut self) -> (was_open: bool)
        ensures
            was_open == old(self).opened,
            !final(self).opened,
            final(self).name@ == old(self).name@,
            final(self).txt_title@ == old(self).txt_title@,
    {
        let was_open = self.opened;
        if was_open {
            self.opened = false;
        }
        was_open
    }
}

} // verus!
